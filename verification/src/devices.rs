//! Reading the device list that `pactl list sinks` / `pactl list sources`
//! prints: one entry per device block, named by its `Name:` line and labelled
//! by its `Description:` line.
use vstd::prelude::*;

use crate::audio::Target;
use crate::text::{
    chars_from_range, chars_of, ends_with, find_newline, range_ends_with, range_starts_with,
    lemma_trim_strip_cr, line_len, split_lines, starts_with, string_from_range, strip_cr,
    text_lines, trim, trim_range,
};

verus! {

/// A device that can be made the default: its `pactl` name and the label
/// shown for it.
#[derive(Clone, Debug)]
pub struct DeviceEntry {
    pub id: String,
    pub label: String,
}

/// A device entry as plain text: `(id, label)`.
pub type EntryText = (Seq<char>, Seq<char>);

impl View for DeviceEntry {
    type V = EntryText;

    open spec fn view(&self) -> EntryText {
        (self.id@, self.label@)
    }
}

pub open spec fn entries_text(v: Seq<DeviceEntry>) -> Seq<EntryText> {
    v.map_values(|e: DeviceEntry| e@)
}

/// What the parser has seen so far: the finished entries, and the name and
/// description of the block it is in (empty when not seen yet).
pub type ParseState = (Seq<EntryText>, Seq<char>, Seq<char>);

/// The line that opens a device block.
pub open spec fn header_text(target: Target) -> Seq<char> {
    match target {
        Target::Sink => "Sink #"@,
        Target::Source => "Source #"@,
    }
}

/// Closes the current block. A block without a name adds nothing; a source
/// whose name ends in `.monitor` is dropped; any other block adds an entry
/// labelled by its description, or by its name when it has no description.
/// Either way the next block starts with no name and no description.
pub open spec fn flush(target: Target, st: ParseState) -> ParseState {
    let (entries, id, label) = st;
    if id.len() == 0 {
        (entries, id, seq![])
    } else if target == Target::Source && ends_with(id, ".monitor"@) {
        (entries, seq![], seq![])
    } else {
        (entries.push((id, if label.len() == 0 { id } else { label })), seq![], seq![])
    }
}

/// One line of input, taken after trimming: a block header closes the
/// current block; `Name: ` and `Description: ` lines set the trimmed value;
/// anything else is ignored.
pub open spec fn step(target: Target, st: ParseState, line: Seq<char>) -> ParseState {
    let l = trim(line);
    if starts_with(l, header_text(target)) {
        flush(target, st)
    } else if starts_with(l, "Name: "@) {
        (st.0, trim(l.skip("Name: "@.len() as int)), st.2)
    } else if starts_with(l, "Description: "@) {
        (st.0, st.1, trim(l.skip("Description: "@.len() as int)))
    } else {
        st
    }
}

/// The state after reading `lines` in order, starting from `st`.
pub open spec fn run_lines(target: Target, st: ParseState, lines: Seq<Seq<char>>) -> ParseState
    decreases lines.len(),
{
    if lines.len() == 0 {
        st
    } else {
        run_lines(target, step(target, st, lines[0]), lines.drop_first())
    }
}

pub open spec fn empty_state() -> ParseState {
    (seq![], seq![], seq![])
}

/// The devices that `raw` lists, in order.
pub open spec fn device_entries(raw: Seq<char>, target: Target) -> Seq<EntryText> {
    flush(target, run_lines(target, empty_state(), text_lines(raw))).0
}

/// An empty line changes nothing.
proof fn lemma_step_empty(target: Target, st: ParseState)
    ensures
        step(target, st, seq![]) == st,
{
    reveal_strlit("Sink #");
    reveal_strlit("Source #");
    reveal_strlit("Name: ");
    reveal_strlit("Description: ");
    assert(trim(seq![]) =~= seq![]);
}

/// Reading the pieces between newlines gives what reading the lines gives:
/// the empty piece after a final newline and a `'\r'` before a newline
/// change nothing.
proof fn lemma_lines_agree(target: Target, st: ParseState, s: Seq<char>)
    ensures
        run_lines(target, st, split_lines(s)) == run_lines(target, st, text_lines(s)),
    decreases s.len(),
{
    let n = line_len(s);
    if s.len() == 0 {
        lemma_step_empty(target, st);
        assert(split_lines(s) =~= seq![s]);
        assert(seq![s].drop_first() =~= seq![]);
        assert(s =~= seq![]);
    } else if n >= s.len() {
        assert(split_lines(s) == text_lines(s));
    } else {
        let piece = s.take(n as int);
        let rest = s.skip(n + 1 as int);
        lemma_lines_agree(target, step(target, st, piece), rest);
        lemma_trim_strip_cr(piece);
        assert(step(target, st, strip_cr(piece)) == step(target, st, piece));
        let a = seq![piece] + split_lines(rest);
        let b = seq![strip_cr(piece)] + text_lines(rest);
        assert(a[0] == piece && a.drop_first() =~= split_lines(rest));
        assert(b[0] == strip_cr(piece) && b.drop_first() =~= text_lines(rest));
    }
}

/// Closes the pending block, as `flush` says.
fn flush_pending(
    target: Target,
    entries: &mut Vec<DeviceEntry>,
    id: &mut Vec<char>,
    label: &mut Vec<char>,
    monitor: &Vec<char>,
)
    requires
        monitor@ == ".monitor"@,
    ensures
        (entries_text(final(entries)@), final(id)@, final(label)@) == flush(
            target,
            (entries_text(old(entries)@), old(id)@, old(label)@),
        ),
{
    if id.len() == 0 {
        *label = Vec::new();
        return ;
    }
    let is_source = match target {
        Target::Source => true,
        Target::Sink => false,
    };
    if is_source && range_ends_with(id, 0, id.len(), monitor) {
        assert(id@.subrange(0, id@.len() as int) =~= id@);
        *id = Vec::new();
        *label = Vec::new();
        return ;
    }
    assert(id@.subrange(0, id@.len() as int) =~= id@);
    assert(label@.subrange(0, label@.len() as int) =~= label@);
    let id_text = string_from_range(id, 0, id.len());
    let label_text = if label.len() == 0 {
        string_from_range(id, 0, id.len())
    } else {
        string_from_range(label, 0, label.len())
    };
    let ghost before = entries@;
    entries.push(DeviceEntry { id: id_text, label: label_text });
    assert(entries_text(entries@) =~= entries_text(before).push(
        (old(id)@, if old(label)@.len() == 0 { old(id)@ } else { old(label)@ }),
    ));
    *id = Vec::new();
    *label = Vec::new();
}

/// The devices that `raw` (the output of `pactl list sinks` or
/// `pactl list sources`) lists, in order; monitor sources are left out.
pub fn parse_device_entries(raw: &str, target: Target) -> (v: Vec<DeviceEntry>)
    ensures
        entries_text(v@) == device_entries(raw@, target),
{
    let chars = chars_of(raw);
    let header = match target {
        Target::Sink => chars_of("Sink #"),
        Target::Source => chars_of("Source #"),
    };
    let name_prefix = chars_of("Name: ");
    let description_prefix = chars_of("Description: ");
    let monitor = chars_of(".monitor");

    let mut entries: Vec<DeviceEntry> = Vec::new();
    let mut id: Vec<char> = Vec::new();
    let mut label: Vec<char> = Vec::new();
    let ghost total = run_lines(target, empty_state(), split_lines(raw@));
    let mut pos: usize = 0;
    assert(chars@.skip(0) =~= chars@);
    assert(entries_text(entries@) =~= seq![]);

    loop
        invariant_except_break
            pos <= chars@.len(),
            run_lines(target, (entries_text(entries@), id@, label@), split_lines(chars@.skip(pos as int)))
                == total,
        invariant
            chars@ == raw@,
            header@ == header_text(target),
            name_prefix@ == "Name: "@,
            description_prefix@ == "Description: "@,
            monitor@ == ".monitor"@,
            total == run_lines(target, empty_state(), split_lines(raw@)),
        ensures
            (entries_text(entries@), id@, label@) == total,
        decreases chars@.len() - pos,
    {
        let e = find_newline(&chars, pos);
        let ghost st = (entries_text(entries@), id@, label@);
        let ghost line = chars@.subrange(pos as int, e as int);
        let ghost rest = if e < chars@.len() { split_lines(chars@.skip(e + 1)) } else { seq![] };
        proof {
            if e == chars@.len() {
                assert(chars@.skip(pos as int) =~= line);
            }
            assert(split_lines(chars@.skip(pos as int)) =~= seq![line] + rest);
            assert((seq![line] + rest)[0] == line);
            assert((seq![line] + rest).drop_first() =~= rest);
        }
        let (a, b) = trim_range(&chars, pos, e);
        let ghost l = chars@.subrange(a as int, b as int);
        assert(l == trim(line));
        if range_starts_with(&chars, a, b, &header) {
            flush_pending(target, &mut entries, &mut id, &mut label, &monitor);
        } else if range_starts_with(&chars, a, b, &name_prefix) {
            let start = a + name_prefix.len();
            let (c, d) = trim_range(&chars, start, b);
            assert(l.skip(name_prefix@.len() as int) =~= chars@.subrange(start as int, b as int));
            id = chars_from_range(&chars, c, d);
        } else if range_starts_with(&chars, a, b, &description_prefix) {
            let start = a + description_prefix.len();
            let (c, d) = trim_range(&chars, start, b);
            assert(l.skip(description_prefix@.len() as int) =~= chars@.subrange(
                start as int,
                b as int,
            ));
            label = chars_from_range(&chars, c, d);
        }
        assert((entries_text(entries@), id@, label@) == step(target, st, line));
        if e == chars.len() {
            proof {
                let after = step(target, st, line);
                assert(run_lines(target, after, seq![]) == after);
            }
            break;
        }
        pos = e + 1;
    }
    proof {
        lemma_lines_agree(target, empty_state(), raw@);
    }
    flush_pending(target, &mut entries, &mut id, &mut label, &monitor);
    entries
}

} // verus!
