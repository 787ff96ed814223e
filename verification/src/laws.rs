//! Properties that hold of every input, across the functions of the library.
use vstd::prelude::*;

use crate::audio::{
    audio_info_command_text, set_volume_command_text, toggle_mute_command_text,
    default_id_outcome, device_read_next, device_state_outcome, volume_token_text, DeviceReadText,
    Target,
};
use crate::audio::{
    default_device_command_text, snapshot_command_text, snapshot_read_next, DeviceStateText,
    SnapshotReadText,
};
use crate::command::{capture_outcome, status_outcome, CommandText, SpawnResult};
use crate::devices::{device_entries, empty_state, flush, header_text, run_lines, step, ParseState};
use crate::error::ErrorText;
use crate::text::{line_len, starts_with, strip_cr};
use crate::devices::EntryText;
use crate::view::{
    command_follow_up_outcome, device_select_outcome, refresh_next, refresh_trace,
    section_outcome, ChoicesText, CommandPoll, RefreshEvent, RefreshPoll, SLIDER_MAX,
};
use crate::audio::DeviceState;
use crate::error::error_message;
use crate::audio::{audio_info_result, list_devices_command_text, list_outcome, AudioInfo, VolumeReading};
use crate::error::AudioResult;
use crate::text::contains_text;
use crate::text::{
    ends_with, first_with_digit, has_ascii_digit, is_white, lemma_word_len, text_lines, trim,
    trim_end, trim_start, word_len, words,
};

verus! {

/// A command run for its effect succeeds exactly when it started and exited
/// with code zero.
pub proof fn law_status_success_iff_zero_exit(cmd: CommandText, spawned: SpawnResult)
    ensures
        status_outcome(cmd, spawned) is Ok <==> (spawned matches Ok(out) && out.exit_code
            == Some(0i32)),
{
}

/// A command run for its output gives text exactly when it started, exited
/// with code zero and printed valid UTF-8; the text is what it printed.
pub proof fn law_capture_gives_printed_text(cmd: CommandText, spawned: SpawnResult)
    ensures
        capture_outcome(cmd, spawned) is Ok <==> (spawned matches Ok(out) && out.exit_code
            == Some(0i32) && vstd::utf8::valid_utf8(out.stdout@)),
        spawned matches Ok(out) ==> (capture_outcome(cmd, spawned) matches Ok(t) ==> t
            == vstd::utf8::decode_utf8(out.stdout@)),
{
}

/// `w` neither starts nor ends with whitespace.
pub open spec fn unpadded(w: Seq<char>) -> bool {
    w.len() > 0 ==> !is_white(w[0]) && !is_white(w.last())
}

/// What every device entry satisfies: a non-empty, unpadded id and label,
/// and no monitor among sources.
pub open spec fn entry_ok(target: Target, e: (Seq<char>, Seq<char>)) -> bool {
    &&& e.0.len() > 0
    &&& e.1.len() > 0
    &&& unpadded(e.0)
    &&& unpadded(e.1)
    &&& target == Target::Source ==> !ends_with(e.0, ".monitor"@)
}

/// Every finished entry is well formed, and the pending name and description
/// are unpadded.
pub open spec fn state_ok(target: Target, st: ParseState) -> bool {
    &&& forall|i: int| 0 <= i < st.0.len() ==> entry_ok(target, #[trigger] st.0[i])
    &&& unpadded(st.1)
    &&& unpadded(st.2)
}

/// Trimmed text is unpadded.
pub proof fn lemma_trim_unpadded(x: Seq<char>)
    ensures
        unpadded(trim(x)),
{
    let t = trim_start(x);
    lemma_trim_start_first(x);
    lemma_trim_end_prefix(t);
    if trim(x).len() > 0 {
        assert(trim(x)[0] == t[0]);
    }
}

proof fn lemma_flush_keeps(target: Target, st: ParseState)
    requires
        state_ok(target, st),
    ensures
        state_ok(target, flush(target, st)),
{
    let f = flush(target, st);
    assert forall|i: int| 0 <= i < f.0.len() implies entry_ok(target, #[trigger] f.0[i]) by {
        if i < st.0.len() {
            assert(f.0[i] == st.0[i]);
        }
    }
    assert(unpadded(seq![]));
}

proof fn lemma_step_keeps(target: Target, st: ParseState, line: Seq<char>)
    requires
        state_ok(target, st),
    ensures
        state_ok(target, step(target, st, line)),
{
    let l = trim(line);
    lemma_flush_keeps(target, st);
    lemma_trim_unpadded(l.skip("Name: "@.len() as int));
    lemma_trim_unpadded(l.skip("Description: "@.len() as int));
}

proof fn lemma_run_keeps(target: Target, st: ParseState, lines: Seq<Seq<char>>)
    requires
        state_ok(target, st),
    ensures
        state_ok(target, run_lines(target, st, lines)),
    decreases lines.len(),
{
    if lines.len() > 0 {
        let next = step(target, st, lines[0]);
        lemma_step_keeps(target, st, lines[0]);
        lemma_run_keeps(target, next, lines.drop_first());
    }
}

/// Every device that a listing yields has a non-empty id and a non-empty
/// label, neither of which starts or ends with whitespace, and a source
/// listing never yields a monitor (an id ending in `.monitor`).
pub proof fn law_device_entries_well_formed(raw: Seq<char>, target: Target)
    ensures
        forall|i: int|
            0 <= i < device_entries(raw, target).len() ==> entry_ok(
                target,
                #[trigger] device_entries(raw, target)[i],
            ),
{
    let st = run_lines(target, empty_state(), text_lines(raw));
    assert(state_ok(target, empty_state()));
    lemma_run_keeps(target, empty_state(), text_lines(raw));
    lemma_flush_keeps(target, st);
}

proof fn lemma_word_chars(s: Seq<char>)
    ensures
        forall|i: int| 0 <= i < word_len(s) ==> !is_white(#[trigger] s[i]),
    decreases s.len(),
{
    lemma_word_len(s);
    if s.len() > 0 && !is_white(s[0]) {
        lemma_word_chars(s.drop_first());
        assert forall|i: int| 0 <= i < word_len(s) implies !is_white(#[trigger] s[i]) by {
            if i > 0 {
                assert(s[i] == s.drop_first()[i - 1]);
            }
        }
    }
}

/// A word holds at least one character and no whitespace.
pub open spec fn is_word(w: Seq<char>) -> bool {
    w.len() > 0 && forall|i: int| 0 <= i < w.len() ==> !is_white(#[trigger] w[i])
}

proof fn lemma_words_are_words(s: Seq<char>)
    ensures
        forall|k: int| 0 <= k < words(s).len() ==> is_word(#[trigger] words(s)[k]),
    decreases s.len(),
{
    if s.len() == 0 {
    } else if is_white(s[0]) {
        lemma_words_are_words(s.drop_first());
        assert(words(s) == words(s.drop_first()));
    } else {
        let n = word_len(s);
        lemma_word_len(s);
        lemma_word_chars(s);
        if 0 < n <= s.len() {
            lemma_words_are_words(s.skip(n as int));
            let w = s.take(n as int);
            let ws = seq![w] + words(s.skip(n as int));
            assert forall|k: int| 0 <= k < ws.len() implies is_word(#[trigger] ws[k]) by {
                if k == 0 {
                    assert forall|i: int| 0 <= i < w.len() implies !is_white(#[trigger] w[i]) by {
                        assert(w[i] == s[i]);
                    }
                } else {
                    assert(ws[k] == words(s.skip(n as int))[k - 1]);
                }
            }
            assert(words(s) == ws);
        }
    }
}

proof fn lemma_first_with_digit(ws: Seq<Seq<char>>)
    requires
        forall|k: int| 0 <= k < ws.len() ==> is_word(#[trigger] ws[k]),
    ensures
        first_with_digit(ws) matches Some(w) ==> is_word(w) && has_ascii_digit(w),
    decreases ws.len(),
{
    if ws.len() > 0 && !has_ascii_digit(ws[0]) {
        let rest = ws.drop_first();
        assert forall|k: int| 0 <= k < rest.len() implies is_word(#[trigger] rest[k]) by {
            assert(rest[k] == ws[k + 1]);
        }
        lemma_first_with_digit(rest);
    }
}

/// The volume figure picked out of a `wpctl` line is a single word: it is
/// not empty, holds no whitespace, and holds an ASCII digit.
pub proof fn law_volume_token_is_a_word_with_a_digit(raw: Seq<char>)
    ensures
        volume_token_text(raw) matches Some(w) ==> is_word(w) && has_ascii_digit(w),
{
    lemma_words_are_words(raw);
    lemma_first_with_digit(words(raw));
}

/// A device read that starts by asking for the default device ends, after
/// the two command outcomes, with the device state of the whole read: the
/// first error, or the default device's id and the device list.
pub proof fn law_device_read_two_steps(
    target: Target,
    default_spawned: SpawnResult,
    list_spawned: SpawnResult,
)
    ensures
        device_read_next(
            target,
            device_read_next(target, DeviceReadText::AwaitDefault, default_spawned),
            list_spawned,
        ) == DeviceReadText::Done(device_state_outcome(target, default_spawned, list_spawned)),
{
}

/// A finished device read stays as it is, whatever outcome is fed to it.
pub proof fn law_device_read_done_is_final(
    target: Target,
    result: Result<crate::audio::DeviceStateText, crate::error::ErrorText>,
    spawned: SpawnResult,
)
    ensures
        device_read_next(target, DeviceReadText::Done(result), spawned) == DeviceReadText::Done(
            result,
        ),
{
}

proof fn lemma_trim_start_first(s: Seq<char>)
    ensures
        trim_start(s).len() > 0 ==> !is_white(trim_start(s)[0]),
    decreases s.len(),
{
    if s.len() > 0 && is_white(s[0]) {
        lemma_trim_start_first(s.drop_first());
    }
}

proof fn lemma_trim_end_prefix(s: Seq<char>)
    ensures
        trim_end(s).len() <= s.len(),
        trim_end(s) == s.take(trim_end(s).len() as int),
        trim_end(s).len() > 0 ==> !is_white(trim_end(s).last()),
    decreases s.len(),
{
    if s.len() > 0 && is_white(s.last()) {
        lemma_trim_end_prefix(s.drop_last());
        assert(s.drop_last().take(trim_end(s).len() as int) =~= s.take(trim_end(s).len() as int));
    } else {
        assert(s.take(s.len() as int) =~= s);
    }
}

/// A default device id that is read is not empty and neither starts nor ends
/// with whitespace.
pub proof fn law_default_device_id_is_trimmed(target: Target, spawned: SpawnResult)
    ensures
        default_id_outcome(target, spawned) matches Ok(id) ==> id.len() > 0 && unpadded(id),
{
    if let Ok(out) = capture_outcome(crate::audio::default_device_command_text(target), spawned) {
        lemma_trim_unpadded(out);
    }
}

/// Reading the volume, setting it and toggling mute all address the same
/// default device of a side, through `wpctl`.
pub proof fn law_volume_commands_share_the_device(target: Target, volume: Seq<char>)
    ensures
        audio_info_command_text(target).0 == toggle_mute_command_text(target).0,
        audio_info_command_text(target).0 == set_volume_command_text(target, volume).0,
        audio_info_command_text(target).1[1] == target.object_name_text(),
        toggle_mute_command_text(target).1[1] == target.object_name_text(),
        set_volume_command_text(target, volume).1[3] == target.object_name_text(),
{
}

/// A block header always starts a fresh block: neither the name nor the
/// description of the block before it carries over.
pub proof fn law_header_starts_fresh_block(target: Target, st: ParseState, line: Seq<char>)
    requires
        starts_with(trim(line), header_text(target)),
    ensures
        step(target, st, line).1 == Seq::<char>::empty(),
        step(target, st, line).2 == Seq::<char>::empty(),
{
}

/// At most one refresh of a kind is in flight: after any events from an idle
/// flag, the refreshes started less those ended is 1 while the flag is set
/// and 0 otherwise.
pub proof fn law_at_most_one_refresh_in_flight(events: Seq<RefreshEvent>)
    ensures
        refresh_trace(false, events).1 == (if refresh_trace(false, events).0 { 1int } else { 0int }),
{
    lemma_refresh_trace(false, events);
}

proof fn lemma_refresh_trace(running: bool, events: Seq<RefreshEvent>)
    ensures
        refresh_trace(running, events).1 + (if running { 1int } else { 0int }) == (if refresh_trace(
            running,
            events,
        ).0 { 1int } else { 0int }),
    decreases events.len(),
{
    if events.len() > 0 {
        let (next, _) = refresh_next(running, events[0]);
        lemma_refresh_trace(next, events.drop_first());
    }
}

/// A volume request that a later slider move replaced is never sent: the
/// ticket of the later move differs from every earlier ticket.
pub proof fn law_only_latest_volume_request_is_sent(pending: u64, earlier: u64)
    requires
        earlier <= pending < u64::MAX,
    ensures
        (pending + 1) != earlier,
{
}

/// Of several quick slider moves starting from counter `pending`, move `i`
/// gets ticket `pending + i` and the counter ends at `pending + n`, so only the
/// last move's request is sent. The counter must hold `pending + n`.
pub proof fn law_only_last_of_quick_moves_is_sent(pending: u64, n: u64, i: u64)
    requires
        1 <= i <= n,
        pending + n <= u64::MAX,
    ensures
        (pending + n == pending + i) <==> i == n,
{
}

/// A two-sided device read starts with the output side's default device.
pub proof fn law_device_snapshot_reads_output_first()
    ensures
        snapshot_command_text((DeviceReadText::AwaitDefault, DeviceReadText::AwaitDefault)) == Some(
            (Target::Sink, default_device_command_text(Target::Sink)),
        ),
{
}

/// Once the output side is done, whatever it gave, the input side is read.
pub proof fn law_device_snapshot_reads_input_whatever_output_gave(
    output: Result<DeviceStateText, ErrorText>,
)
    ensures
        snapshot_command_text((DeviceReadText::Done(output), DeviceReadText::AwaitDefault)) == Some(
            (Target::Source, default_device_command_text(Target::Source)),
        ),
{
}

/// A command outcome moves only the side that waited on it: the other side
/// keeps what it has.
pub proof fn law_device_snapshot_sides_independent(read: SnapshotReadText, spawned: SpawnResult)
    ensures
        !(read.0 is Done) ==> snapshot_read_next(read, spawned).1 == read.1,
        read.0 is Done ==> snapshot_read_next(read, spawned).0 == read.0,
{
}

/// The output side of a two-sided read ends with the output side's own
/// device state, however the input side stands.
pub proof fn law_device_snapshot_output_side(
    input: DeviceReadText,
    default_spawned: SpawnResult,
    list_spawned: SpawnResult,
)
    ensures
        default_id_outcome(Target::Sink, default_spawned) is Ok ==> snapshot_read_next(
            snapshot_read_next((DeviceReadText::AwaitDefault, input), default_spawned),
            list_spawned,
        ) == (
            DeviceReadText::Done(
                device_state_outcome(Target::Sink, default_spawned, list_spawned),
            ),
            input,
        ),
        default_id_outcome(Target::Sink, default_spawned) is Err ==> snapshot_read_next(
            (DeviceReadText::AwaitDefault, input),
            default_spawned,
        ) == (
            DeviceReadText::Done(
                device_state_outcome(Target::Sink, default_spawned, list_spawned),
            ),
            input,
        ),
{
}

/// The input side of a two-sided read ends with the input side's own device
/// state, whatever the output side gave.
pub proof fn law_device_snapshot_input_side(
    output: Result<DeviceStateText, ErrorText>,
    default_spawned: SpawnResult,
    list_spawned: SpawnResult,
)
    ensures
        default_id_outcome(Target::Source, default_spawned) is Ok ==> snapshot_read_next(
            snapshot_read_next(
                (DeviceReadText::Done(output), DeviceReadText::AwaitDefault),
                default_spawned,
            ),
            list_spawned,
        ) == (
            DeviceReadText::Done(output),
            DeviceReadText::Done(
                device_state_outcome(Target::Source, default_spawned, list_spawned),
            ),
        ),
        default_id_outcome(Target::Source, default_spawned) is Err ==> snapshot_read_next(
            (DeviceReadText::Done(output), DeviceReadText::AwaitDefault),
            default_spawned,
        ) == (
            DeviceReadText::Done(output),
            DeviceReadText::Done(
                device_state_outcome(Target::Source, default_spawned, list_spawned),
            ),
        ),
{
}

// ---------------------------------------------------------------------------
// Listings made of well-formed blocks
// ---------------------------------------------------------------------------

/// A device block of a listing: the text after the header's `#`, the
/// device's name, and its description if it has one.
pub type Block = (Seq<char>, Seq<char>, Option<Seq<char>>);

pub open spec fn no_white(s: Seq<char>) -> bool {
    forall|i: int| 0 <= i < s.len() ==> !is_white(#[trigger] s[i])
}

pub open spec fn no_newline(s: Seq<char>) -> bool {
    forall|i: int| 0 <= i < s.len() ==> #[trigger] s[i] != '\n'
}

/// A name or description as a listing writes it: not empty, unpadded, on
/// one line.
pub open spec fn value_ok(v: Seq<char>) -> bool {
    v.len() > 0 && unpadded(v) && no_newline(v)
}

pub open spec fn block_ok(b: Block) -> bool {
    &&& no_white(b.0)
    &&& value_ok(b.1)
    &&& b.2 matches Some(d) ==> value_ok(d)
}

/// The lines of a block: its header, its `Name:` line, and its
/// `Description:` line if it has a description.
pub open spec fn block_lines(target: Target, b: Block) -> Seq<Seq<char>> {
    seq![header_text(target) + b.0, "Name: "@ + b.1] + match b.2 {
        Some(d) => seq!["Description: "@ + d],
        None => Seq::<Seq<char>>::empty(),
    }
}

pub open spec fn listing_lines(target: Target, bs: Seq<Block>) -> Seq<Seq<char>>
    decreases bs.len(),
{
    if bs.len() == 0 {
        seq![]
    } else {
        block_lines(target, bs[0]) + listing_lines(target, bs.drop_first())
    }
}

/// Lines as text, each ended by a newline.
pub open spec fn join_lines(ls: Seq<Seq<char>>) -> Seq<char>
    decreases ls.len(),
{
    if ls.len() == 0 {
        seq![]
    } else {
        ls[0] + seq!['\n'] + join_lines(ls.drop_first())
    }
}

/// The entry a block gives: none for a monitor source, else its name
/// labelled by its description, or by its name when it has none.
pub open spec fn block_entry(target: Target, b: Block) -> Seq<EntryText> {
    if target == Target::Source && ends_with(b.1, ".monitor"@) {
        seq![]
    } else {
        seq![
            (
                b.1,
                match b.2 {
                    Some(d) => d,
                    None => b.1,
                },
            ),
        ]
    }
}

pub open spec fn listed_entries(target: Target, bs: Seq<Block>) -> Seq<EntryText>
    decreases bs.len(),
{
    if bs.len() == 0 {
        seq![]
    } else {
        block_entry(target, bs[0]) + listed_entries(target, bs.drop_first())
    }
}

pub open spec fn line_ok(l: Seq<char>) -> bool {
    l.len() > 0 && no_newline(l) && !is_white(l.last())
}

proof fn lemma_line_len_concat(l: Seq<char>, r: Seq<char>)
    requires
        no_newline(l),
    ensures
        line_len(l + seq!['\n'] + r) == l.len(),
    decreases l.len(),
{
    let s = l + seq!['\n'] + r;
    if l.len() == 0 {
        assert(s[0] == '\n');
    } else {
        assert(s[0] == l[0]);
        let t = l.drop_first();
        assert forall|i: int| 0 <= i < t.len() implies #[trigger] t[i] != '\n' by {
            assert(t[i] == l[i + 1]);
        }
        lemma_line_len_concat(t, r);
        assert(s.drop_first() =~= t + seq!['\n'] + r);
    }
}

proof fn lemma_text_lines_join(ls: Seq<Seq<char>>)
    requires
        forall|k: int| 0 <= k < ls.len() ==> line_ok(#[trigger] ls[k]),
    ensures
        text_lines(join_lines(ls)) == ls,
    decreases ls.len(),
{
    if ls.len() > 0 {
        let l = ls[0];
        let rest = ls.drop_first();
        assert(line_ok(ls[0]));
        assert forall|k: int| 0 <= k < rest.len() implies line_ok(#[trigger] rest[k]) by {
            assert(rest[k] == ls[k + 1]);
        }
        lemma_text_lines_join(rest);
        let s = join_lines(ls);
        lemma_line_len_concat(l, join_lines(rest));
        assert(s.take(l.len() as int) =~= l);
        assert(s.skip(l.len() + 1 as int) =~= join_lines(rest));
        assert(l.last() != '\r') by {
            assert(is_white('\r'));
        }
        assert(strip_cr(l) == l);
        assert(text_lines(s) =~= seq![l] + rest);
        assert(seq![l] + rest =~= ls);
    } else {
        assert(join_lines(ls) =~= seq![]);
    }
}

proof fn lemma_run_concat(target: Target, st: ParseState, a: Seq<Seq<char>>, b: Seq<Seq<char>>)
    ensures
        run_lines(target, st, a + b) == run_lines(target, run_lines(target, st, a), b),
    decreases a.len(),
{
    if a.len() > 0 {
        assert((a + b)[0] == a[0]);
        assert((a + b).drop_first() =~= a.drop_first() + b);
        lemma_run_concat(target, step(target, st, a[0]), a.drop_first(), b);
    } else {
        assert(a + b =~= b);
    }
}

proof fn lemma_trim_self(x: Seq<char>)
    requires
        x.len() > 0,
        !is_white(x[0]),
        !is_white(x.last()),
    ensures
        trim(x) == x,
{
    assert(trim_start(x) == x);
    assert(trim_end(x) == x);
}

/// The three-line shape of a block and what reading it does.
proof fn lemma_block_run(target: Target, st: ParseState, b: Block)
    requires
        block_ok(b),
    ensures
        run_lines(target, st, block_lines(target, b)) == (
            flush(target, st).0,
            b.1,
            match b.2 {
                Some(d) => d,
                None => Seq::<char>::empty(),
            },
        ),
        forall|k: int|
            0 <= k < block_lines(target, b).len() ==> line_ok(#[trigger] block_lines(target, b)[k]),
{
    reveal_strlit("Sink #");
    reveal_strlit("Source #");
    reveal_strlit("Name: ");
    reveal_strlit("Description: ");
    let h = header_text(target);
    let l1 = h + b.0;
    let l2 = "Name: "@ + b.1;
    assert(h[0] == 'S');
    assert(!is_white('S') && !is_white('#') && !is_white('N') && !is_white('D'));
    assert(h.last() == '#');
    // the header line
    assert(l1[0] == 'S');
    if b.0.len() > 0 {
        assert(l1.last() == b.0.last());
        assert(!is_white(b.0[b.0.len() - 1]));
    } else {
        assert(l1 =~= h);
    }
    lemma_trim_self(l1);
    assert(l1.subrange(0, h.len() as int) =~= h);
    let f = flush(target, st);
    assert(step(target, st, l1) == f);
    // the name line
    assert(l2[0] == 'N');
    assert(l2.last() == b.1.last());
    lemma_trim_self(l2);
    if h.len() <= l2.len() {
        assert(l2.subrange(0, h.len() as int)[0] == l2[0]);
    }
    assert(!starts_with(l2, h));
    assert(l2.subrange(0, "Name: "@.len() as int) =~= "Name: "@);
    assert(l2.skip("Name: "@.len() as int) =~= b.1);
    lemma_trim_self(b.1);
    let after_name = (f.0, b.1, f.2);
    assert(step(target, f, l2) == after_name);
    assert(f.2 == Seq::<char>::empty());
    let ls = block_lines(target, b);
    assert(ls[0] == l1);
    assert(ls[1] == l2);
    assert(no_newline(h)) by {
        assert forall|i: int| 0 <= i < h.len() implies #[trigger] h[i] != '\n' by {}
    }
    assert(line_ok(l1)) by {
        assert forall|i: int| 0 <= i < l1.len() implies #[trigger] l1[i] != '\n' by {
            if i >= h.len() {
                assert(l1[i] == b.0[i - h.len()]);
                assert(is_white('\n'));
            }
        }
    }
    assert(line_ok(l2)) by {
        assert forall|i: int| 0 <= i < l2.len() implies #[trigger] l2[i] != '\n' by {
            if i >= 6 {
                assert(l2[i] == b.1[i - 6]);
            }
        }
    }
    match b.2 {
        None => {
            assert(ls =~= seq![l1, l2]);
            assert(seq![l1, l2].drop_first() =~= seq![l2]);
            assert(seq![l2].drop_first() =~= Seq::<Seq<char>>::empty());
            assert(run_lines(target, after_name, Seq::<Seq<char>>::empty()) == after_name);
            assert(run_lines(target, f, seq![l2]) == after_name);
        },
        Some(d) => {
            let l3 = "Description: "@ + d;
            assert(ls =~= seq![l1, l2, l3]);
            assert(l3[0] == 'D');
            assert(l3.last() == d.last());
            lemma_trim_self(l3);
            if h.len() <= l3.len() {
                assert(l3.subrange(0, h.len() as int)[0] == l3[0]);
            }
            assert(!starts_with(l3, h));
            assert(l3.subrange(0, 6)[0] == l3[0]);
            assert(!starts_with(l3, "Name: "@));
            assert(l3.subrange(0, "Description: "@.len() as int) =~= "Description: "@);
            assert(l3.skip("Description: "@.len() as int) =~= d);
            lemma_trim_self(d);
            let after_desc = (f.0, b.1, d);
            assert(step(target, after_name, l3) == after_desc);
            assert(seq![l1, l2, l3].drop_first() =~= seq![l2, l3]);
            assert(seq![l2, l3].drop_first() =~= seq![l3]);
            assert(seq![l3].drop_first() =~= Seq::<Seq<char>>::empty());
            assert(run_lines(target, after_desc, Seq::<Seq<char>>::empty()) == after_desc);
            assert(run_lines(target, after_name, seq![l3]) == after_desc);
            assert(run_lines(target, f, seq![l2, l3]) == after_desc);
            assert(line_ok(l3)) by {
                assert forall|i: int| 0 <= i < l3.len() implies #[trigger] l3[i] != '\n' by {
                    if i >= 13 {
                        assert(l3[i] == d[i - 13]);
                    }
                }
            }
            assert(ls[2] == l3);
        },
    }
}

proof fn lemma_listing_run(target: Target, st: ParseState, bs: Seq<Block>)
    requires
        forall|k: int| 0 <= k < bs.len() ==> block_ok(#[trigger] bs[k]),
    ensures
        flush(target, run_lines(target, st, listing_lines(target, bs))).0 == flush(target, st).0
            + listed_entries(target, bs),
        forall|k: int|
            0 <= k < listing_lines(target, bs).len() ==> line_ok(
                #[trigger] listing_lines(target, bs)[k],
            ),
    decreases bs.len(),
{
    if bs.len() == 0 {
        assert(flush(target, st).0 + Seq::<EntryText>::empty() =~= flush(target, st).0);
    } else {
        let b = bs[0];
        let rest = bs.drop_first();
        assert(block_ok(bs[0]));
        assert forall|k: int| 0 <= k < rest.len() implies block_ok(#[trigger] rest[k]) by {
            assert(rest[k] == bs[k + 1]);
        }
        lemma_block_run(target, st, b);
        let st_b = run_lines(target, st, block_lines(target, b));
        lemma_listing_run(target, st_b, rest);
        lemma_run_concat(target, st, block_lines(target, b), listing_lines(target, rest));
        let f = flush(target, st);
        assert(flush(target, st_b).0 == f.0 + block_entry(target, b));
        assert(f.0 + block_entry(target, b) + listed_entries(target, rest) =~= f.0 + listed_entries(
            target,
            bs,
        ));
        let bl = block_lines(target, b);
        let ll = listing_lines(target, rest);
        assert forall|k: int| 0 <= k < (bl + ll).len() implies line_ok(#[trigger] (bl + ll)[k]) by {
            if k < bl.len() {
                assert((bl + ll)[k] == bl[k]);
            } else {
                assert((bl + ll)[k] == ll[k - bl.len()]);
            }
        }
    }
}

/// A listing made of well-formed blocks (a `Sink #` or `Source #` header, a
/// `Name:` line and maybe a `Description:` line each) yields one entry per
/// block, in order: its name, labelled by its description or else by its
/// name; a source listing drops monitors.
pub proof fn law_listing_of_blocks(target: Target, bs: Seq<Block>)
    requires
        forall|k: int| 0 <= k < bs.len() ==> block_ok(#[trigger] bs[k]),
    ensures
        device_entries(join_lines(listing_lines(target, bs)), target) == listed_entries(target, bs),
{
    lemma_listing_run(target, empty_state(), bs);
    lemma_text_lines_join(listing_lines(target, bs));
    assert(flush(target, empty_state()).0 =~= Seq::<EntryText>::empty());
    assert(Seq::<EntryText>::empty() + listed_entries(target, bs) =~= listed_entries(target, bs));
}

// ---------------------------------------------------------------------------
// What each operation is for
// ---------------------------------------------------------------------------

/// A line that, trimmed, is neither a block header nor a `Name: ` or
/// `Description: ` line (such as `State:`, `Driver:` or `Volume:` lines).
pub open spec fn other_line(target: Target, line: Seq<char>) -> bool {
    let l = trim(line);
    &&& !starts_with(l, header_text(target))
    &&& !starts_with(l, "Name: "@)
    &&& !starts_with(l, "Description: "@)
}

/// Any other line leaves what the parser has seen exactly as it was: the
/// finished entries, and the pending name and description.
pub proof fn law_other_lines_change_nothing(target: Target, st: ParseState, line: Seq<char>)
    requires
        other_line(target, line),
    ensures
        step(target, st, line) == st,
{
}

/// Inserting any other line anywhere in a listing does not change the
/// devices it yields.
pub proof fn law_other_lines_do_not_change_the_devices(
    target: Target,
    before: Seq<Seq<char>>,
    line: Seq<char>,
    after: Seq<Seq<char>>,
)
    requires
        other_line(target, line),
        line_ok(line),
        forall|k: int| 0 <= k < before.len() ==> line_ok(#[trigger] before[k]),
        forall|k: int| 0 <= k < after.len() ==> line_ok(#[trigger] after[k]),
    ensures
        device_entries(join_lines(before + seq![line] + after), target) == device_entries(
            join_lines(before + after),
            target,
        ),
{
    let with = before + seq![line] + after;
    let without = before + after;
    assert forall|k: int| 0 <= k < with.len() implies line_ok(#[trigger] with[k]) by {
        if k < before.len() {
            assert(with[k] == before[k]);
        } else if k == before.len() {
            assert(with[k] == line);
        } else {
            assert(with[k] == after[k - before.len() - 1]);
        }
    }
    assert forall|k: int| 0 <= k < without.len() implies line_ok(#[trigger] without[k]) by {
        if k < before.len() {
            assert(without[k] == before[k]);
        } else {
            assert(without[k] == after[k - before.len()]);
        }
    }
    lemma_text_lines_join(with);
    lemma_text_lines_join(without);
    let e = empty_state();
    lemma_run_concat(target, e, before + seq![line], after);
    lemma_run_concat(target, e, before, seq![line]);
    lemma_run_concat(target, e, before, after);
    let mid = run_lines(target, e, before);
    assert(seq![line][0] == line);
    assert(seq![line].drop_first() =~= Seq::<Seq<char>>::empty());
    assert(run_lines(target, step(target, mid, line), Seq::<Seq<char>>::empty()) == step(
        target,
        mid,
        line,
    ));
    assert(run_lines(target, mid, seq![line]) == mid);
}

/// A reading with a figure gives the figure's percent unchanged, and is muted
/// exactly when the output says `[MUTED]`; a failed reading gives its own
/// error.
pub proof fn law_volume_read_as_given(
    target: Target,
    reading: AudioResult<VolumeReading>,
    percent: u32,
)
    ensures
        reading matches Ok(v) ==> (v.token is Some ==> audio_info_result(
            target,
            reading,
            Some(percent),
        ) == Ok::<(u32, bool), ErrorText>((percent, contains_text(v.raw@, "[MUTED]"@)))),
        reading matches Err(e) ==> audio_info_result(target, reading, Some(percent)) == Err::<
            (u32, bool),
            ErrorText,
        >(e@),
{
}

/// The device list of a side is its listing read with that side's header: a
/// listing of well-formed blocks for that side yields one entry per block, in
/// order, labelled by description or else name, with monitor sources
/// dropped.
pub proof fn law_device_list_reads_its_own_side(
    target: Target,
    spawned: SpawnResult,
    bs: Seq<Block>,
)
    requires
        forall|k: int| 0 <= k < bs.len() ==> block_ok(#[trigger] bs[k]),
        capture_outcome(list_devices_command_text(target), spawned) == Ok::<Seq<char>, ErrorText>(
            join_lines(listing_lines(target, bs)),
        ),
    ensures
        list_outcome(target, spawned) == Ok::<Seq<EntryText>, ErrorText>(listed_entries(target, bs)),
{
    law_listing_of_blocks(target, bs);
}

/// A section that is not being dragged puts the slider at the volume, capped
/// at the slider's maximum, and labels the level with the full volume.
pub proof fn law_slider_follows_volume(target: Target, info: AudioInfo)
    ensures
        ({
            let v = section_outcome(target, Ok(info), false);
            &&& v.1 matches Some(x) && x <= SLIDER_MAX && x <= info.volume_percent
            &&& info.volume_percent <= SLIDER_MAX ==> v.1 == Some(info.volume_percent)
            &&& info.volume_percent > SLIDER_MAX ==> v.1 == Some(SLIDER_MAX)
            &&& v.0 == Some(crate::view::percent_text(info.volume_percent))
        }),
{
}

/// Once a background command has finished, its follow-up releases the
/// slider, refreshes the readings, stops polling, and reports exactly a
/// failure, whether or not the device lists are refreshed too.
pub proof fn law_finished_command_releases_slider(
    result: AudioResult<()>,
    refresh_devices: bool,
)
    ensures
        ({
            let f = command_follow_up_outcome(CommandPoll::Finished(result), refresh_devices);
            &&& f.0
            &&& f.3
            &&& !f.4
            &&& f.2 == refresh_devices
            &&& (f.1 is Some <==> result is Err)
        }),
{
}

/// A section shows the reading's state: `Muted` or `Live` with the matching
/// icon and enabled controls, no tooltip, and the level left alone while the
/// slider is dragged; a failed reading shows `--`, `Unavailable`, disabled
/// controls and the error text.
pub proof fn law_section_shows_the_reading(target: Target, result: AudioResult<AudioInfo>, adjusting: bool)
    ensures
        ({
            let v = section_outcome(target, result, adjusting);
            &&& result matches Ok(info) ==> {
                &&& v.2
                &&& v.3 is None
                &&& v.4 == target.status_icon_text(info.muted)
                &&& v.5 == (if info.muted { "Muted"@ } else { "Live"@ })
                &&& (adjusting ==> v.0 is None && v.1 is None)
                &&& (!adjusting ==> v.0 is Some && v.1 is Some)
            }
            &&& result matches Err(e) ==> {
                &&& !v.2
                &&& v.0 == Some("--"@)
                &&& v.1 is None
                &&& v.3 == Some(error_message(e@))
                &&& v.4 == target.icon_text()
                &&& v.5 == "Unavailable"@
            }
        }),
{
}

/// A device selector offers exactly the side's devices with its default one
/// selected, and can be changed exactly when there is more than one; a failed
/// read shows a placeholder with the error text.
pub proof fn law_selector_offers_the_devices(result: AudioResult<DeviceState>)
    ensures
        ({
            let v = device_select_outcome(result);
            &&& result matches Ok(state) ==> {
                &&& v.0 == ChoicesText::Devices(state@)
                &&& v.1 <==> state.entries@.len() >= 2
                &&& v.2 <==> !v.1
                &&& v.3 is None
            }
            &&& result matches Err(e) ==> !v.1 && v.2 && v.3 == Some(error_message(e@))
        }),
{
}

/// Polling a refresh: while nothing has arrived the flag stays and polling
/// goes on; what arrives is shown and ends the refresh; a vanished worker
/// ends it without showing anything. A request starts a refresh exactly when
/// none runs, and leaves the flag set.
pub proof fn law_refresh_steps(running: bool)
    ensures
        refresh_next(running, RefreshEvent::Poll(RefreshPoll::Pending)).0 == running,
        refresh_next(running, RefreshEvent::Poll(RefreshPoll::Pending)).1.keep_polling,
        !refresh_next(running, RefreshEvent::Poll(RefreshPoll::Pending)).1.apply,
        !refresh_next(running, RefreshEvent::Poll(RefreshPoll::Received)).0,
        refresh_next(running, RefreshEvent::Poll(RefreshPoll::Received)).1.apply,
        !refresh_next(running, RefreshEvent::Poll(RefreshPoll::Received)).1.keep_polling,
        !refresh_next(running, RefreshEvent::Poll(RefreshPoll::Disconnected)).0,
        !refresh_next(running, RefreshEvent::Poll(RefreshPoll::Disconnected)).1.apply,
        !refresh_next(running, RefreshEvent::Poll(RefreshPoll::Disconnected)).1.keep_polling,
        refresh_next(running, RefreshEvent::Request).0,
        refresh_next(running, RefreshEvent::Request).1.start == !running,
{
}

/// A background command that has not finished keeps being polled and changes
/// nothing; one whose worker went away releases the slider, refreshes the
/// readings and stops.
pub proof fn law_unfinished_command_follow_up(refresh_devices: bool)
    ensures
        command_follow_up_outcome(CommandPoll::Pending, refresh_devices) == (
            false,
            None::<Seq<char>>,
            false,
            false,
            true,
        ),
        command_follow_up_outcome(CommandPoll::Disconnected, refresh_devices) == (
            true,
            None::<Seq<char>>,
            false,
            true,
            false,
        ),
{
}

proof fn lemma_first_with_digit_is_first(ws: Seq<Seq<char>>)
    ensures
        first_with_digit(ws) is None ==> forall|k: int| 0 <= k < ws.len() ==> !has_ascii_digit(
            #[trigger] ws[k],
        ),
        first_with_digit(ws) matches Some(w) ==> exists|k: int|
            0 <= k < ws.len() && ws[k] == w && forall|j: int|
                0 <= j < k ==> !has_ascii_digit(#[trigger] ws[j]),
    decreases ws.len(),
{
    if ws.len() > 0 {
        let rest = ws.drop_first();
        lemma_first_with_digit_is_first(rest);
        if has_ascii_digit(ws[0]) {
            assert(ws[0] == ws[0]);
        } else {
            if first_with_digit(rest) is None {
                assert forall|k: int| 0 <= k < ws.len() implies !has_ascii_digit(#[trigger] ws[k]) by {
                    if k > 0 {
                        assert(ws[k] == rest[k - 1]);
                    }
                }
            } else {
                let w = first_with_digit(rest).unwrap();
                let k = choose|k: int|
                    0 <= k < rest.len() && rest[k] == w && forall|j: int|
                        0 <= j < k ==> !has_ascii_digit(#[trigger] rest[j]);
                assert(ws[k + 1] == w);
                assert forall|j: int| 0 <= j < k + 1 implies !has_ascii_digit(#[trigger] ws[j]) by {
                    if j > 0 {
                        assert(ws[j] == rest[j - 1]);
                    }
                }
            }
        }
    }
}

/// The volume figure is the first whitespace-separated word that holds a
/// digit: no earlier word holds one, and there is no figure exactly when no
/// word holds one.
pub proof fn law_volume_token_is_the_first_digit_word(raw: Seq<char>)
    ensures
        volume_token_text(raw) is None ==> forall|k: int|
            0 <= k < words(raw).len() ==> !has_ascii_digit(#[trigger] words(raw)[k]),
        volume_token_text(raw) matches Some(w) ==> exists|k: int|
            0 <= k < words(raw).len() && words(raw)[k] == w && forall|j: int|
                0 <= j < k ==> !has_ascii_digit(#[trigger] words(raw)[j]),
{
    lemma_first_with_digit_is_first(words(raw));
}

} // verus!
