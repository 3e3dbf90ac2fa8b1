//! The request id that both legs of one request share.
//!
//! An id packs, from the high bits to the low ones, 39 bits of milliseconds, 8
//! bits of node, 6 bits of process and 10 bits of counter, and is then folded
//! into the range of the global ids.

use crate::clock::{clock_nanos, is_reading, millis_between};
use crate::text::{decimal, decimal_text, join_two, law_decimal_reads_back, unsigned_value};
use std::sync::atomic::AtomicU64;
use std::time::Instant;
use vstd::prelude::*;

verus! {

pub const TIMESTAMP_BITS: u32 = 39;

pub const NODE_ID_BITS: u32 = 8;

pub const PROCESS_ID_BITS: u32 = 6;

pub const COUNTER_BITS: u32 = 10;

/// The number of nodes: two to the [`NODE_ID_BITS`].
pub const NODE_ID_SPACE: u64 = 256;

/// The number of processes on one node: two to the [`PROCESS_ID_BITS`].
pub const PROCESS_ID_SPACE: u64 = 64;

/// The ids of one process within one millisecond: two to the [`COUNTER_BITS`].
pub const COUNTER_SPACE: u64 = 1024;

/// The milliseconds before the timestamp wraps: two to the [`TIMESTAMP_BITS`].
pub const TIMESTAMP_SPACE: u64 = 0x80_0000_0000;

/// The smallest global id. The numbers below are left to local ids.
pub const MIN_GLOBAL_ID: u64 = 0x100_0000_0000;

/// The largest signed 64-bit integer.
pub const MAX_INT64: u64 = 0x7fff_ffff_ffff_ffff;

/// The number that folding divides by: `MAX_INT64 - MIN_GLOBAL_ID`.
pub const GLOBAL_ID_SPAN: u64 = 0x7fff_feff_ffff_ffff;

/// Why a namespace or an id was refused.
#[derive(Debug, Clone, Copy, PartialEq, Eq, Structural)]
pub enum IdError {
    NodeIdOutOfRange(u64),
    ProcessIdOutOfRange(u64),
    NotAPositiveInt64(u64),
}

impl IdError {
    /// The text of the error.
    pub open spec fn text(self) -> Seq<char> {
        match self {
            IdError::NodeIdOutOfRange(found) => "node_id must be in [0, 256), got "@ + decimal(
                found as nat,
            ),
            IdError::ProcessIdOutOfRange(found) => "process_id must be in [0, 64), got "@
                + decimal(found as nat),
            IdError::NotAPositiveInt64(found) =>
                "the resulting request id does not fit a positive int64: "@ + decimal(found as nat),
        }
    }

    /// Writes the error out.
    pub fn message(&self) -> (message: String)
        ensures
            message@ == self.text(),
    {
        match self {
            IdError::NodeIdOutOfRange(found) => join_two(
                "node_id must be in [0, 256), got ",
                decimal_text(*found).as_str(),
            ),
            IdError::ProcessIdOutOfRange(found) => join_two(
                "process_id must be in [0, 64), got ",
                decimal_text(*found).as_str(),
            ),
            IdError::NotAPositiveInt64(found) => join_two(
                "the resulting request id does not fit a positive int64: ",
                decimal_text(*found).as_str(),
            ),
        }
    }
}

/// The node and the process that an allocator mints ids for.
///
/// A deployment states both, so that two gateways never share one slot.
#[derive(Debug, Clone, Copy, PartialEq, Eq, Structural)]
pub struct DisaggIdNamespace {
    node_id: u64,
    process_id: u64,
}

impl DisaggIdNamespace {
    /// Both numbers fit in their bits.
    #[verifier::type_invariant]
    pub closed spec fn well_formed(self) -> bool {
        self.node_id < NODE_ID_SPACE && self.process_id < PROCESS_ID_SPACE
    }

    /// The number of the node.
    pub closed spec fn node(self) -> u64 {
        self.node_id
    }

    /// The number of the process on its node.
    pub closed spec fn process(self) -> u64 {
        self.process_id
    }

    /// Takes numbers that fit, and refuses others instead of wrapping them. The
    /// node is looked at first.
    pub fn new(node_id: u64, process_id: u64) -> (outcome: Result<Self, IdError>)
        ensures
            outcome is Ok <==> node_id < NODE_ID_SPACE && process_id < PROCESS_ID_SPACE,
            outcome is Ok ==> outcome->Ok_0.node() == node_id && outcome->Ok_0.process()
                == process_id,
            node_id >= NODE_ID_SPACE ==> outcome->Err_0 == IdError::NodeIdOutOfRange(node_id),
            node_id < NODE_ID_SPACE && process_id >= PROCESS_ID_SPACE ==> outcome->Err_0
                == IdError::ProcessIdOutOfRange(process_id),
    {
        if node_id >= NODE_ID_SPACE {
            return Err(IdError::NodeIdOutOfRange(node_id));
        }
        if process_id >= PROCESS_ID_SPACE {
            return Err(IdError::ProcessIdOutOfRange(process_id));
        }
        Ok(DisaggIdNamespace { node_id, process_id })
    }

    pub fn node_id(&self) -> (node_id: u64)
        ensures
            node_id == self.node(),
            node_id < NODE_ID_SPACE,
    {
        proof {
            use_type_invariant(self);
        }
        self.node_id
    }

    pub fn process_id(&self) -> (process_id: u64)
        ensures
            process_id == self.process(),
            process_id < PROCESS_ID_SPACE,
    {
        proof {
            use_type_invariant(self);
        }
        self.process_id
    }
}

/// The parts of an id side by side, each cut to its bits.
pub open spec fn packed(node: int, process: int, timestamp_ms: int, counter: int) -> int {
    (timestamp_ms % (TIMESTAMP_SPACE as int)) * 0x100_0000 + node * 0x1_0000 + process * 0x400
        + counter % (COUNTER_SPACE as int)
}

/// A number folded into the global ids.
pub open spec fn folded(raw: int) -> int {
    raw % (GLOBAL_ID_SPAN as int) + MIN_GLOBAL_ID
}

/// The id that a namespace gives to a millisecond and a counter.
pub open spec fn request_id(
    namespace: DisaggIdNamespace,
    timestamp_ms: int,
    counter: int,
) -> int {
    folded(packed(namespace.node() as int, namespace.process() as int, timestamp_ms, counter))
}

/// The timestamp, the node, the process and the counter of an id.
pub open spec fn parts(id: int) -> (int, int, int, int) {
    let raw = id - MIN_GLOBAL_ID;
    (
        raw / 0x100_0000 % (TIMESTAMP_SPACE as int),
        raw / 0x1_0000 % (NODE_ID_SPACE as int),
        raw / 0x400 % (PROCESS_ID_SPACE as int),
        raw % (COUNTER_SPACE as int),
    )
}

/// Composes an id from its parts.
///
/// The counter wraps every 1024 ids, so a counter that has wrapped within one
/// millisecond gives an id that was given before.
pub fn compose_disagg_request_id(
    namespace: DisaggIdNamespace,
    timestamp_ms: u64,
    counter: u64,
) -> (id: u64)
    ensures
        id == request_id(namespace, timestamp_ms as int, counter as int),
        MIN_GLOBAL_ID <= id <= MAX_INT64,
{
    proof {
        use_type_invariant(&namespace);
    }
    let node: u64 = namespace.node_id;
    let process: u64 = namespace.process_id;
    let raw: u64 = ((timestamp_ms & 0x7f_ffff_ffff) << 24) | (node << 16) | (process << 10) | (
    counter & 0x3ff);
    assert(raw == (timestamp_ms % 0x80_0000_0000) * 0x100_0000 + node * 0x1_0000 + process * 0x400
        + counter % 0x400) by (bit_vector)
        requires
            node < 256,
            process < 64,
            raw == ((timestamp_ms & 0x7f_ffff_ffff) << 24) | (node << 16) | (process << 10) | (
            counter & 0x3ff),
    ;
    raw % GLOBAL_ID_SPAN + MIN_GLOBAL_ID
}

/// Splits an id into its timestamp, node, process and counter.
pub fn decompose_disagg_request_id(id: u64) -> (outcome: Result<(u64, u64, u64, u64), IdError>)
    ensures
        outcome is Ok <==> MIN_GLOBAL_ID <= id <= MAX_INT64,
        outcome is Err ==> outcome->Err_0 == IdError::NotAPositiveInt64(id),
        outcome is Ok ==> (
            outcome->Ok_0.0 as int,
            outcome->Ok_0.1 as int,
            outcome->Ok_0.2 as int,
            outcome->Ok_0.3 as int,
        ) == parts(id as int),
{
    if id < MIN_GLOBAL_ID || id > MAX_INT64 {
        return Err(IdError::NotAPositiveInt64(id));
    }
    let raw: u64 = id - MIN_GLOBAL_ID;
    assert((raw >> 24) & 0x7f_ffff_ffff == raw / 0x100_0000 % 0x80_0000_0000) by (bit_vector);
    assert((raw >> 16) & 0xff == raw / 0x1_0000 % 0x100) by (bit_vector);
    assert((raw >> 10) & 0x3f == raw / 0x400 % 0x40) by (bit_vector);
    assert(raw & 0x3ff == raw % 0x400) by (bit_vector);
    Ok(((raw >> 24) & 0x7f_ffff_ffff, (raw >> 16) & 0xff, (raw >> 10) & 0x3f, raw & 0x3ff))
}

/// One more of a part moves an id by the weight of that part, as long as no part
/// wraps, and the first id is the smallest global one.
pub proof fn law_parts_have_their_weights(
    node: int,
    process: int,
    timestamp_ms: int,
    counter: int,
)
    requires
        0 <= node < 255,
        0 <= process < 63,
        0 <= timestamp_ms < 0x7f_fffe_fffe,
        counter % 1024 < 1023,
    ensures
        folded(packed(0, 0, 0, 0)) == 0x100_0000_0000,
        folded(packed(node, process, timestamp_ms, counter + 1)) == folded(
            packed(node, process, timestamp_ms, counter),
        ) + 1,
        folded(packed(node, process + 1, timestamp_ms, counter)) == folded(
            packed(node, process, timestamp_ms, counter),
        ) + 0x400,
        folded(packed(node + 1, process, timestamp_ms, counter)) == folded(
            packed(node, process, timestamp_ms, counter),
        ) + 0x1_0000,
        folded(packed(node, process, timestamp_ms + 1, counter)) == folded(
            packed(node, process, timestamp_ms, counter),
        ) + 0x100_0000,
{
    lemma_next_remainder(counter);
    let low = counter % 1024;
    let raw = timestamp_ms * 0x100_0000 + node * 0x1_0000 + process * 0x400 + low;
    assert(timestamp_ms % (TIMESTAMP_SPACE as int) == timestamp_ms);
    assert((timestamp_ms + 1) % (TIMESTAMP_SPACE as int) == timestamp_ms + 1);
    assert(0 <= low < 1023);
    assert(0 <= raw && raw + 0x100_0000 < GLOBAL_ID_SPAN);
    assert(packed(node, process, timestamp_ms, counter) == raw);
    assert(packed(node, process, timestamp_ms, counter + 1) == raw + 1);
    assert(packed(node, process + 1, timestamp_ms, counter) == raw + 0x400);
    assert(packed(node + 1, process, timestamp_ms, counter) == raw + 0x1_0000);
    assert(packed(node, process, timestamp_ms + 1, counter) == raw + 0x100_0000);
    lemma_folding_below_the_span(0);
    lemma_folding_below_the_span(raw);
    lemma_folding_below_the_span(raw + 1);
    lemma_folding_below_the_span(raw + 0x400);
    lemma_folding_below_the_span(raw + 0x1_0000);
    lemma_folding_below_the_span(raw + 0x100_0000);
}

/// The text of an error ends in the number that was refused.
pub proof fn law_id_errors_name_the_number(error: IdError)
    ensures
        ({
            let found = match error {
                IdError::NodeIdOutOfRange(found) => found,
                IdError::ProcessIdOutOfRange(found) => found,
                IdError::NotAPositiveInt64(found) => found,
            };
            exists|k: int|
                0 <= k <= error.text().len() && unsigned_value(#[trigger] error.text().skip(k))
                    == Some(found as nat)
        }),
{
    let (head, found) = match error {
        IdError::NodeIdOutOfRange(found) => ("node_id must be in [0, 256), got "@, found),
        IdError::ProcessIdOutOfRange(found) => ("process_id must be in [0, 64), got "@, found),
        IdError::NotAPositiveInt64(found) => (
            "the resulting request id does not fit a positive int64: "@,
            found,
        ),
    };
    assert(error.text().skip(head.len() as int) =~= decimal(found as nat));
    law_decimal_reads_back(found as nat);
}

/// Every id is a global id, and positive as a signed 64-bit integer.
pub proof fn law_ids_are_global(namespace: DisaggIdNamespace, timestamp_ms: int, counter: int)
    ensures
        MIN_GLOBAL_ID <= request_id(namespace, timestamp_ms, counter) < MAX_INT64,
{
}

/// The parts of an id are what it was composed from, the timestamp and the
/// counter cut to their bits, wherever folding does not wrap.
pub proof fn law_id_round_trips(node: int, process: int, timestamp_ms: int, counter: int)
    requires
        0 <= node < NODE_ID_SPACE,
        0 <= process < PROCESS_ID_SPACE,
        packed(node, process, timestamp_ms, counter) < GLOBAL_ID_SPAN,
    ensures
        parts(folded(packed(node, process, timestamp_ms, counter))) == (
            timestamp_ms % (TIMESTAMP_SPACE as int),
            node,
            process,
            counter % (COUNTER_SPACE as int),
        ),
{
    let timestamp = timestamp_ms % (TIMESTAMP_SPACE as int);
    let low = counter % (COUNTER_SPACE as int);
    lemma_unpacks(timestamp, node, process, low);
}

/// The parts of a packed number can be read off it.
proof fn lemma_unpacks(timestamp: int, node: int, process: int, low: int)
    requires
        0 <= timestamp < TIMESTAMP_SPACE,
        0 <= node < NODE_ID_SPACE,
        0 <= process < PROCESS_ID_SPACE,
        0 <= low < COUNTER_SPACE,
    ensures
        parts(timestamp * 0x100_0000 + node * 0x1_0000 + process * 0x400 + low + MIN_GLOBAL_ID) == (
            timestamp,
            node,
            process,
            low,
        ),
{
    let raw = timestamp * 0x100_0000 + node * 0x1_0000 + process * 0x400 + low;
    assert(raw / 0x100_0000 == timestamp);
    assert(raw / 0x1_0000 == timestamp * 0x100 + node);
    assert(raw / 0x400 == timestamp * 0x4000 + node * 0x40 + process);
    assert((timestamp * 0x4000 + node * 0x40 + process) % 0x40 == process) by {
        assert(timestamp * 0x4000 + node * 0x40 == (timestamp * 0x100 + node) * 0x40);
    }
    assert((timestamp * 0x100 + node) % 0x100 == node);
    assert(raw % 0x400 == low) by {
        assert(raw == (timestamp * 0x4000 + node * 0x40 + process) * 0x400 + low);
    }
}

/// Two ids that folding does not wrap are equal only where all their parts are.
pub proof fn law_ids_tell_their_parts_apart(
    first: (int, int, int, int),
    second: (int, int, int, int),
)
    requires
        0 <= first.0 < NODE_ID_SPACE && 0 <= second.0 < NODE_ID_SPACE,
        0 <= first.1 < PROCESS_ID_SPACE && 0 <= second.1 < PROCESS_ID_SPACE,
        packed(first.0, first.1, first.2, first.3) < GLOBAL_ID_SPAN,
        packed(second.0, second.1, second.2, second.3) < GLOBAL_ID_SPAN,
        folded(packed(first.0, first.1, first.2, first.3)) == folded(
            packed(second.0, second.1, second.2, second.3),
        ),
    ensures
        first.0 == second.0,
        first.1 == second.1,
        first.2 % (TIMESTAMP_SPACE as int) == second.2 % (TIMESTAMP_SPACE as int),
        first.3 % (COUNTER_SPACE as int) == second.3 % (COUNTER_SPACE as int),
{
    law_id_round_trips(first.0, first.1, first.2, first.3);
    law_id_round_trips(second.0, second.1, second.2, second.3);
}

/// Folding maps different numbers to one id only where they lie a whole span
/// apart.
proof fn lemma_folding_keeps_neighbours_apart(a: int, b: int)
    requires
        a != b,
        -0x100_0000 < a - b < 0x100_0000,
    ensures
        folded(a) != folded(b),
{
    let span = GLOBAL_ID_SPAN as int;
    assert(a == (a / span) * span + a % span);
    assert(b == (b / span) * span + b % span);
}

/// Two namespaces never give the same id within one millisecond, whatever their
/// counters are.
pub proof fn law_namespaces_are_apart_within_one_millisecond(
    first: (int, int),
    second: (int, int),
    timestamp_ms: int,
    first_counter: int,
    second_counter: int,
)
    requires
        0 <= first.0 < NODE_ID_SPACE && 0 <= second.0 < NODE_ID_SPACE,
        0 <= first.1 < PROCESS_ID_SPACE && 0 <= second.1 < PROCESS_ID_SPACE,
        first != second,
    ensures
        folded(packed(first.0, first.1, timestamp_ms, first_counter)) != folded(
            packed(second.0, second.1, timestamp_ms, second_counter),
        ),
{
    let low = first_counter % (COUNTER_SPACE as int);
    let other_low = second_counter % (COUNTER_SPACE as int);
    assert(first.0 * 0x1_0000 + first.1 * 0x400 + low != second.0 * 0x1_0000 + second.1 * 0x400
        + other_low) by {
        if first.0 == second.0 {
            assert(first.1 != second.1);
        }
    }
    lemma_folding_keeps_neighbours_apart(
        packed(first.0, first.1, timestamp_ms, first_counter),
        packed(second.0, second.1, timestamp_ms, second_counter),
    );
}

/// Within one millisecond an id comes back after 1024 counters, and not before.
pub proof fn law_counter_wraps(
    node: int,
    process: int,
    timestamp_ms: int,
    counter: int,
    later: int,
)
    requires
        counter < later,
    ensures
        folded(packed(node, process, timestamp_ms, counter + COUNTER_SPACE)) == folded(
            packed(node, process, timestamp_ms, counter),
        ),
        later - counter < COUNTER_SPACE ==> folded(packed(node, process, timestamp_ms, later))
            != folded(packed(node, process, timestamp_ms, counter)),
{
    assert((counter + COUNTER_SPACE) % (COUNTER_SPACE as int) == counter % (COUNTER_SPACE as int));
    if later - counter < COUNTER_SPACE {
        assert(later % 1024 != counter % 1024);
        lemma_folding_keeps_neighbours_apart(
            packed(node, process, timestamp_ms, later),
            packed(node, process, timestamp_ms, counter),
        );
    }
}

/// The timestamp counts modulo two to the 39.
pub proof fn law_timestamp_wraps(node: int, process: int, timestamp_ms: int, counter: int)
    ensures
        packed(node, process, timestamp_ms + TIMESTAMP_SPACE, counter) == packed(
            node,
            process,
            timestamp_ms,
            counter,
        ),
{
    assert((timestamp_ms + TIMESTAMP_SPACE) % (TIMESTAMP_SPACE as int) == timestamp_ms % (
    TIMESTAMP_SPACE as int));
}

/// The word to take where `held` is the next word at hand: its counter, and a
/// timestamp that is no earlier than its own and than the clock's. A counter that
/// has just wrapped takes a millisecond that is still to come.
///
/// A word is a timestamp and a counter side by side.
pub open spec fn raised(held: int, timestamp_ms: int) -> int {
    let counter = held % (COUNTER_SPACE as int);
    let least = if counter == 0 {
        timestamp_ms + 1
    } else {
        timestamp_ms
    };
    let own = held / (COUNTER_SPACE as int);
    (if own < least {
        least
    } else {
        own
    }) * COUNTER_SPACE + counter
}

/// The id that a namespace gives to a word.
pub open spec fn word_id(namespace: DisaggIdNamespace, word: int) -> int {
    request_id(namespace, word / (COUNTER_SPACE as int), word)
}

/// The next word at hand once a word has been taken: the one above it, in which
/// the timestamp is the next one where the counter wraps.
pub open spec fn word_left(word: int) -> int {
    if word == u64::MAX {
        0
    } else {
        word + 1
    }
}

/// Whether these are words that were at hand, and timestamps, of draws that one
/// allocator made one after the other, in whichever threads: what a draw finds at
/// hand is no smaller than what the one before left there. No word has wrapped.
pub open spec fn in_turn(draws: Seq<(int, int)>) -> bool {
    &&& forall|i: int|
        0 <= i < draws.len() ==> (#[trigger] draws[i]).0 >= 0 && raised(draws[i].0, draws[i].1)
            < u64::MAX
    &&& forall|i: int|
        0 < i < draws.len() ==> word_left(raised(draws[i - 1].0, draws[i - 1].1)) <= (
        #[trigger] draws[i]).0
}

/// Whether these are draws in turn of an allocator that nobody else draws from:
/// the first finds the first word, and each other what the one before left.
pub open spec fn one_by_one(draws: Seq<(int, int)>) -> bool {
    &&& forall|i: int|
        0 <= i < draws.len() ==> raised((#[trigger] draws[i]).0, draws[i].1) < u64::MAX
    &&& draws.len() > 0 ==> draws[0].0 == 0
    &&& forall|i: int|
        0 < i < draws.len() ==> (#[trigger] draws[i]).0 == word_left(
            raised(draws[i - 1].0, draws[i - 1].1),
        )
}

/// Draws that nobody else draws between are in turn, and the counter counts them:
/// it is the number of the draws before, modulo 1024.
pub proof fn law_draws_one_by_one_are_in_turn_and_counted(draws: Seq<(int, int)>, k: int)
    requires
        one_by_one(draws),
        0 <= k < draws.len(),
    ensures
        in_turn(draws),
        raised(draws[k].0, draws[k].1) % (COUNTER_SPACE as int) == k % (COUNTER_SPACE as int),
{
    assert forall|i: int| 0 <= i < draws.len() implies (#[trigger] draws[i]).0 >= 0 by {
        lemma_counted(draws, i);
    }
    lemma_counted(draws, k);
}

proof fn lemma_counted(draws: Seq<(int, int)>, k: int)
    requires
        one_by_one(draws),
        0 <= k < draws.len(),
    ensures
        draws[k].0 >= 0,
        raised(draws[k].0, draws[k].1) % (COUNTER_SPACE as int) == k % (COUNTER_SPACE as int),
    decreases k,
{
    if k > 0 {
        lemma_counted(draws, k - 1);
        lemma_raised(draws[k - 1].0, draws[k - 1].1);
        assert(draws[k].0 == word_left(raised(draws[k - 1].0, draws[k - 1].1)));
        lemma_counter_counts(raised(draws[k - 1].0, draws[k - 1].1), k - 1);
    }
    lemma_raised(draws[k].0, draws[k].1);
}

/// Whether these are the words that were at hand when they were taken as they
/// were, one after the other, from an allocator that nobody else draws from.
pub open spec fn drawn_as_they_are(words: Seq<int>) -> bool {
    &&& words.len() > 0 ==> words[0] == 0
    &&& forall|i: int| 0 < i < words.len() ==> (#[trigger] words[i]) == word_left(words[i - 1])
}

/// Where words are taken as they are and given a millisecond from outside, the
/// draw with `k` before it gives the id of the counter `k`. So within one
/// millisecond 1024 such ids are distinct and then come again.
pub proof fn law_kth_draw_for_a_millisecond(
    namespace: DisaggIdNamespace,
    words: Seq<int>,
    timestamp_ms: int,
    k: int,
)
    requires
        drawn_as_they_are(words),
        0 <= k < words.len(),
    ensures
        request_id(namespace, timestamp_ms, words[k]) == request_id(namespace, timestamp_ms, k),
{
    lemma_words_count(words, k);
}

proof fn lemma_words_count(words: Seq<int>, k: int)
    requires
        drawn_as_they_are(words),
        0 <= k < words.len(),
    ensures
        words[k] % (COUNTER_SPACE as int) == k % (COUNTER_SPACE as int),
    decreases k,
{
    if k > 0 {
        lemma_words_count(words, k - 1);
        assert(words[k] == word_left(words[k - 1]));
        lemma_counter_counts(words[k - 1], k - 1);
    }
}

/// The counter of the word that is left is the next one.
proof fn lemma_counter_counts(word: int, k: int)
    requires
        word % (COUNTER_SPACE as int) == k % (COUNTER_SPACE as int),
    ensures
        word_left(word) % (COUNTER_SPACE as int) == (k + 1) % (COUNTER_SPACE as int),
        word >= 0 ==> word_left(word) >= 0,
{
    lemma_next_remainder(word);
    lemma_next_remainder(k);
}

proof fn lemma_next_remainder(number: int)
    ensures
        (number + 1) % 1024 == (if number % 1024 == 1023 {
            0
        } else {
            number % 1024 + 1
        }),
{
}

/// The ids of one allocator grow from draw to draw, so that none is given twice,
/// however many threads draw, however often within one millisecond and also where
/// the clock stands still or goes back, as long as neither the timestamp nor
/// folding wraps.
pub proof fn law_minting_never_repeats(
    namespace: DisaggIdNamespace,
    draws: Seq<(int, int)>,
    i: int,
    j: int,
)
    requires
        in_turn(draws),
        0 <= i < j < draws.len(),
        raised(draws[j].0, draws[j].1) < TIMESTAMP_SPACE * COUNTER_SPACE,
        packed(
            namespace.node() as int,
            namespace.process() as int,
            raised(draws[j].0, draws[j].1) / (COUNTER_SPACE as int),
            raised(draws[j].0, draws[j].1),
        ) < GLOBAL_ID_SPAN,
    ensures
        word_id(namespace, raised(draws[i].0, draws[i].1)) < word_id(
            namespace,
            raised(draws[j].0, draws[j].1),
        ),
{
    lemma_words_grow(draws, i, j);
    lemma_ids_grow(
        namespace,
        raised(draws[i].0, draws[i].1),
        raised(draws[j].0, draws[j].1),
    );
}

/// A larger word gives a larger id, where neither the timestamp nor folding wraps.
proof fn lemma_ids_grow(namespace: DisaggIdNamespace, a: int, b: int)
    requires
        0 <= a < b < TIMESTAMP_SPACE * COUNTER_SPACE,
        packed(namespace.node() as int, namespace.process() as int, b / 1024, b) < GLOBAL_ID_SPAN,
    ensures
        word_id(namespace, a) < word_id(namespace, b),
{
    let node = namespace.node() as int;
    let process = namespace.process() as int;
    assert(a / 1024 <= b / 1024);
    assert(b / 1024 < TIMESTAMP_SPACE);
    lemma_packed_grows(node, process, (a / 1024, a), (b / 1024, b));
    let low = packed(node, process, a / 1024, a);
    let high = packed(node, process, b / 1024, b);
    assert(0 <= low) by {
        assert(0 <= a / 1024 % (TIMESTAMP_SPACE as int));
        assert(0 <= a % 1024);
    }
    lemma_folding_below_the_span(low);
    lemma_folding_below_the_span(high);
}

/// Folding only moves a number that is below the span.
proof fn lemma_folding_below_the_span(raw: int)
    requires
        0 <= raw < GLOBAL_ID_SPAN,
    ensures
        folded(raw) == raw + MIN_GLOBAL_ID,
{
}

/// A word that is taken is never below the one at hand, so that words grow from
/// draw to draw.
proof fn lemma_words_grow(draws: Seq<(int, int)>, i: int, j: int)
    requires
        in_turn(draws),
        0 <= i < j < draws.len(),
    ensures
        0 <= raised(draws[i].0, draws[i].1) < raised(draws[j].0, draws[j].1),
    decreases j - i,
{
    lemma_raised(draws[i].0, draws[i].1);
    lemma_raised(draws[j].0, draws[j].1);
    assert(raised(draws[j - 1].0, draws[j - 1].1) < draws[j].0);
    if i < j - 1 {
        lemma_words_grow(draws, i, j - 1);
    }
}

proof fn lemma_raised(held: int, timestamp_ms: int)
    requires
        held >= 0,
    ensures
        raised(held, timestamp_ms) >= held,
        raised(held, timestamp_ms) % (COUNTER_SPACE as int) == held % (COUNTER_SPACE as int),
        raised(held, timestamp_ms) / (COUNTER_SPACE as int) >= timestamp_ms,
{
    assert(held == held / 1024 * 1024 + held % 1024);
}

/// A later timestamp, or a later counter of the same round, gives a larger packed
/// number.
proof fn lemma_packed_grows(node: int, process: int, a: (int, int), b: (int, int))
    requires
        0 <= a.0 <= b.0 < TIMESTAMP_SPACE,
        a.0 == b.0 ==> a.1 < b.1 && a.1 / 1024 == b.1 / 1024,
    ensures
        packed(node, process, a.0, a.1) < packed(node, process, b.0, b.1),
{
    if a.0 == b.0 {
        assert(a.1 % 1024 < b.1 % 1024);
    } else {
        assert(a.1 % 1024 <= 1023);
        assert(b.1 % 1024 >= 0);
        assert(a.0 * 0x100_0000 + 0x100_0000 <= b.0 * 0x100_0000);
    }
}

/// The timestamp that an allocator gives to a time since its start: the whole
/// milliseconds cut to 39 bits.
pub open spec fn stamp(elapsed_ms: nat) -> int {
    if elapsed_ms <= u64::MAX {
        elapsed_ms as int % (TIMESTAMP_SPACE as int)
    } else {
        TIMESTAMP_SPACE - 1
    }
}

/// Cuts a time since the start to a timestamp.
pub fn timestamp_of(elapsed_ms: u128) -> (timestamp_ms: u64)
    ensures
        timestamp_ms == stamp(elapsed_ms as nat),
        timestamp_ms < TIMESTAMP_SPACE,
{
    let bounded: u64 = if elapsed_ms <= 0xffff_ffff_ffff_ffff {
        elapsed_ms as u64
    } else {
        u64::MAX
    };
    assert(bounded & 0x7f_ffff_ffff == bounded % 0x80_0000_0000) by (bit_vector);
    assert(0xffff_ffff_ffff_ffffu64 % 0x80_0000_0000 == 0x7f_ffff_ffff) by (bit_vector);
    bounded & 0x7f_ffff_ffff
}

/// Whether a namespace gives `id` to a millisecond and a counter.
pub open spec fn gives(
    namespace: DisaggIdNamespace,
    timestamp_ms: u64,
    counter: u64,
    id: i64,
) -> bool {
    id == request_id(namespace, timestamp_ms as int, counter as int)
}

/// Composes an id as a signed integer, which every id fits in.
fn signed_id(namespace: DisaggIdNamespace, timestamp_ms: u64, counter: u64) -> (id: i64)
    ensures
        gives(namespace, timestamp_ms, counter, id),
        MIN_GLOBAL_ID <= id,
{
    compose_disagg_request_id(namespace, timestamp_ms, counter) as i64
}

/// The id for a reading of the clock and of the counter, unless the counter has
/// just wrapped: the millisecond may then have given its ids out already.
pub fn issue(namespace: DisaggIdNamespace, timestamp_ms: u64, counter: u64) -> (id: Option<i64>)
    ensures
        id is None <==> counter % COUNTER_SPACE == 0,
        id is Some ==> gives(namespace, timestamp_ms, counter, id->Some_0) && MIN_GLOBAL_ID
            <= id->Some_0,
{
    if counter % COUNTER_SPACE == 0 {
        return None;
    }
    Some(signed_id(namespace, timestamp_ms, counter))
}

/// Gives the word to take where `held` is the next word at hand.
pub fn raise(held: u64, timestamp_ms: u64) -> (word: u64)
    requires
        timestamp_ms < TIMESTAMP_SPACE,
    ensures
        word == raised(held as int, timestamp_ms as int),
        word >= held,
        word % COUNTER_SPACE == held % COUNTER_SPACE,
{
    let counter: u64 = held % COUNTER_SPACE;
    let own: u64 = held / COUNTER_SPACE;
    let least: u64 = if counter == 0 {
        timestamp_ms + 1
    } else {
        timestamp_ms
    };
    proof {
        lemma_raised(held as int, timestamp_ms as int);
    }
    if own < least {
        least * COUNTER_SPACE + counter
    } else {
        held
    }
}

/// The word to take where `held` is the next word at hand, and the word to leave
/// in its place.
pub fn step(held: u64, timestamp_ms: u64) -> (taken: (u64, u64))
    requires
        timestamp_ms < TIMESTAMP_SPACE,
    ensures
        taken.0 == raised(held as int, timestamp_ms as int),
        taken.1 == word_left(taken.0 as int),
{
    let word: u64 = raise(held, timestamp_ms);
    (word, word.wrapping_add(1))
}

/// Supplies the id of one request.
pub trait RequestIds: Send + Sync {
    /// Whether the supply may give an id. One that says nothing of its ids may
    /// give any.
    open spec fn may_mint(&self, id: i64) -> bool {
        true
    }

    fn mint(&self) -> (id: i64)
        ensures
            self.may_mint(id),
    ;
}

/// Mints the ids of one gateway process.
///
/// The clock is monotonic, so setting the wall clock back does not disturb the
/// timestamps. A restart starts both the clock and the counter anew.
#[derive(Debug)]
pub struct DisaggRequestIds {
    namespace: DisaggIdNamespace,
    started: Instant,
    /// The next word at hand. Timestamp and counter are one atomic, so that no
    /// thread can take one of them and be overtaken before it takes the other.
    word: AtomicU64,
}

impl DisaggRequestIds {
    /// The namespace that the ids belong to.
    pub closed spec fn slot(self) -> DisaggIdNamespace {
        self.namespace
    }

    /// The reading of the clock that the timestamps count from.
    pub closed spec fn start(self) -> Instant {
        self.started
    }

    /// The timestamp of a moment.
    pub open spec fn stamp_at(self, now: Instant) -> int {
        stamp(millis_between(self.start(), now))
    }

    /// Whether the timestamp was still `timestamp_ms` when it was `seen`, in a wait
    /// that had `began` two milliseconds before its `last` reading of the clock.
    pub open spec fn waited(
        self,
        timestamp_ms: int,
        began: Instant,
        seen: Instant,
        last: Instant,
    ) -> bool {
        &&& is_reading(began) && is_reading(seen) && is_reading(last)
        &&& self.stamp_at(seen) == timestamp_ms
        &&& millis_between(began, last) >= 2
    }

    /// Whether a wait for the timestamp to leave `timestamp_ms` was in vain.
    pub open spec fn stood_still(self, timestamp_ms: int) -> bool {
        exists|began: Instant, seen: Instant, last: Instant| #[trigger]
            self.waited(timestamp_ms, began, seen, last)
    }

    /// Whether the timestamp was the same at every one of these readings.
    pub open spec fn all_at(self, readings: Seq<Instant>, timestamp_ms: int) -> bool {
        forall|i: int|
            0 <= i < readings.len() ==> is_reading(#[trigger] readings[i]) && self.stamp_at(
                readings[i],
            ) == timestamp_ms
    }

    /// Whether the word at hand was made as the first one.
    pub closed spec fn fresh(self) -> bool {
        call_ensures(AtomicU64::new, (0u64,), self.word)
    }

    /// Whether a draw from this allocator's own word gave `word`.
    pub closed spec fn drew(self, word: u64) -> bool {
        call_ensures(
            AtomicU64::fetch_add,
            (&self.word, 1u64, std::sync::atomic::Ordering::Relaxed),
            word,
        )
    }

    /// Whether a draw of two from this allocator's own word gave `first`.
    pub closed spec fn drew_two(self, first: u64) -> bool {
        call_ensures(
            AtomicU64::fetch_add,
            (&self.word, 2u64, std::sync::atomic::Ordering::Relaxed),
            first,
        )
    }

    /// Whether `left` took the place of `held` in this allocator's own word.
    pub closed spec fn replaced(self, held: u64, left: u64) -> bool {
        exists|outcome: Result<u64, u64>| outcome is Ok && #[trigger]
            call_ensures(
                AtomicU64::compare_exchange,
                (
                    &self.word,
                    held,
                    left,
                    std::sync::atomic::Ordering::Relaxed,
                    std::sync::atomic::Ordering::Relaxed,
                ),
                outcome,
            )
    }

    /// Whether the allocator has taken `word` where `held` was the next word at
    /// hand: the word above it took the place of `held`, or `held` is the one of
    /// two words drawn at once whose counter has not just wrapped.
    pub open spec fn took(self, held: u64, word: u64) -> bool {
        ||| exists|left: u64| left == word_left(word as int) && #[trigger] self.replaced(held, left)
        ||| exists|first: u64|
            held == (if first % COUNTER_SPACE == 0 {
                word_left(first as int)
            } else {
                first as int
            }) && #[trigger] self.drew_two(first)
    }

    /// Whether `id` is what the allocator gave for a reading of the clock, where
    /// `held` was the next word at hand: the id of the word that it took. A counter
    /// that has just wrapped is given out only where a wait for the next
    /// millisecond was in vain.
    pub open spec fn may_give(self, held: u64, now: Instant, word: u64, id: i64) -> bool {
        &&& is_reading(now)
        &&& self.took(held, word)
        &&& word == raised(held as int, self.stamp_at(now))
        &&& id == word_id(self.slot(), word as int)
        &&& word % COUNTER_SPACE == 0 ==> self.stood_still(self.stamp_at(now))
    }

    pub fn new(namespace: DisaggIdNamespace) -> (ids: Self)
        ensures
            ids.slot() == namespace,
            ids.fresh(),
    {
        DisaggRequestIds { namespace, started: Instant::now(), word: AtomicU64::new(0) }
    }

    pub fn namespace(&self) -> (namespace: DisaggIdNamespace)
        ensures
            namespace == self.slot(),
    {
        self.namespace
    }

    /// The timestamp of the present moment.
    pub fn elapsed_ms(&self) -> (timestamp_ms: u64)
        ensures
            exists|now: Instant|
                is_reading(now) && timestamp_ms == #[trigger] self.stamp_at(now),
            timestamp_ms < TIMESTAMP_SPACE,
    {
        self.timestamp_at(Instant::now())
    }

    /// The timestamp of a moment, which is zero before the start.
    pub fn timestamp_at(&self, now: Instant) -> (timestamp_ms: u64)
        ensures
            timestamp_ms == self.stamp_at(now),
            timestamp_ms < TIMESTAMP_SPACE,
    {
        let elapsed = now.saturating_duration_since(self.started);
        timestamp_of(elapsed.as_millis())
    }

    /// Takes the next word at hand, and with it the next value of the counter.
    /// Which one that is depends on the draws of every thread that shares the
    /// allocator, so any may come.
    fn draw(&self) -> (word: u64)
        ensures
            self.drew(word),
    {
        self.word.fetch_add(1, std::sync::atomic::Ordering::Relaxed)
    }

    /// Takes the next two words at hand and gives the first.
    fn draw_two(&self) -> (first: u64)
        ensures
            self.drew_two(first),
    {
        self.word.fetch_add(2, std::sync::atomic::Ordering::Relaxed)
    }

    /// The next word at hand. Other threads may take it at any time.
    fn look(&self) -> u64 {
        self.word.load(std::sync::atomic::Ordering::Relaxed)
    }

    /// Puts `next` in the place of `held`, and says whether `held` was still there.
    fn replace(&self, held: u64, next: u64) -> (done: bool)
        ensures
            done ==> self.replaced(held, next),
    {
        match self.word.compare_exchange(
            held,
            next,
            std::sync::atomic::Ordering::Relaxed,
            std::sync::atomic::Ordering::Relaxed,
        ) {
            Ok(_) => true,
            Err(_) => false,
        }
    }

    /// Lets the next word at hand be no smaller than `least`.
    fn lift(&self, least: u64) {
        self.word.fetch_max(least, std::sync::atomic::Ordering::Relaxed);
    }

    /// Takes a word for a timestamp. The next word at hand is then the one above
    /// it, in which the timestamp is the next one where the counter wraps.
    fn take(&self, timestamp_ms: u64) -> (word: u64)
        requires
            timestamp_ms < TIMESTAMP_SPACE,
        ensures
            exists|held: u64|
                word == raised(held as int, timestamp_ms as int) && #[trigger] self.took(
                    held,
                    word,
                ),
    {
        let mut tries: u64 = 0;
        while tries < u64::MAX
            invariant
                timestamp_ms < TIMESTAMP_SPACE,
            decreases u64::MAX - tries,
        {
            let held: u64 = self.look();
            let (word, left): (u64, u64) = step(held, timestamp_ms);
            if self.replace(held, left) {
                assert(self.took(held, word));
                return word;
            }
            tries += 1;
        }
        self.take_of_two(timestamp_ms)
    }

    /// Takes a word for a timestamp whose counter has not just wrapped, without a
    /// second look: of two words at hand at least one is such a word.
    fn take_of_two(&self, timestamp_ms: u64) -> (word: u64)
        requires
            timestamp_ms < TIMESTAMP_SPACE,
        ensures
            word % COUNTER_SPACE != 0,
            exists|held: u64|
                word == raised(held as int, timestamp_ms as int) && #[trigger] self.took(
                    held,
                    word,
                ),
    {
        self.lift(timestamp_ms * COUNTER_SPACE);
        let first: u64 = self.draw_two();
        let held: u64 = if first % COUNTER_SPACE == 0 {
            first.wrapping_add(1)
        } else {
            first
        };
        let word: u64 = raise(held, timestamp_ms);
        assert(self.took(held, word));
        word
    }

    /// Mints the next id.
    ///
    /// A counter that has just wrapped is passed over, and minting goes on in a
    /// later millisecond. Where the clock stands still, the id is given the
    /// millisecond to come.
    pub fn next(&self) -> (id: i64)
        ensures
            exists|held: u64, now: Instant, word: u64| #[trigger]
                self.may_give(held, now, word, id),
            MIN_GLOBAL_ID <= id,
    {
        let mut passed_over: u64 = 0;
        assert(self.slot() == self.namespace);
        while passed_over < u64::MAX
            invariant
                self.slot() == self.namespace,
            decreases u64::MAX - passed_over,
        {
            let timestamp_ms: u64 = self.elapsed_ms();
            let word: u64 = self.take(timestamp_ms);
            let ghost held = choose|held: u64|
                word == raised(held as int, timestamp_ms as int) && #[trigger] self.took(
                    held,
                    word,
                );
            let ghost now = choose|now: Instant|
                is_reading(now) && timestamp_ms == #[trigger] self.stamp_at(now);
            match issue(self.namespace, word / COUNTER_SPACE, word) {
                Some(id) => {
                    assert(self.may_give(held, now, word, id));
                    return id;
                },
                None => match self.advance_past(timestamp_ms) {
                    Some(true) => {
                        passed_over += 1;
                    },
                    Some(false) => {
                        let id: i64 = signed_id(self.namespace, word / COUNTER_SPACE, word);
                        assert(self.may_give(held, now, word, id));
                        return id;
                    },
                    None => {
                        passed_over = u64::MAX;
                    },
                },
            }
        }
        let timestamp_ms: u64 = self.elapsed_ms();
        let word: u64 = self.take_of_two(timestamp_ms);
        let id: i64 = signed_id(self.namespace, word / COUNTER_SPACE, word);
        proof {
            let held = choose|held: u64|
                word == raised(held as int, timestamp_ms as int) && #[trigger] self.took(
                    held,
                    word,
                );
            let now = choose|now: Instant|
                is_reading(now) && timestamp_ms == #[trigger] self.stamp_at(now);
            assert(self.may_give(held, now, word, id));
        }
        id
    }

    /// Waits up to two milliseconds for the timestamp to move away from
    /// `timestamp_ms`, and says whether it did. It says nothing where the clock has
    /// been read as often as a wait may read it.
    fn advance_past(&self, timestamp_ms: u64) -> (moved: Option<bool>)
        ensures
            moved == Some(true) ==> exists|now: Instant|
                is_reading(now) && timestamp_ms != #[trigger] self.stamp_at(now),
            moved == Some(false) ==> self.stood_still(timestamp_ms as int),
            moved is None ==> exists|readings: Seq<Instant>|
                readings.len() == u64::MAX && #[trigger] self.all_at(
                    readings,
                    timestamp_ms as int,
                ),
    {
        let began = Instant::now();
        let mut spins: u64 = 0;
        let ghost mut readings: Seq<Instant> = seq![];
        while spins < u64::MAX
            invariant
                is_reading(began),
                readings.len() == spins,
                self.all_at(readings, timestamp_ms as int),
            decreases u64::MAX - spins,
        {
            let seen = Instant::now();
            if self.timestamp_at(seen) != timestamp_ms {
                return Some(true);
            }
            let last = Instant::now();
            let waited = last.saturating_duration_since(began);
            if waited.as_millis() >= 2 {
                assert(self.waited(timestamp_ms as int, began, seen, last));
                return Some(false);
            }
            std::hint::spin_loop();
            proof {
                readings = readings.push(seen);
            }
            spins += 1;
        }
        None
    }

    /// Mints an id for a given millisecond.
    pub fn next_at_ms(&self, timestamp_ms: u64) -> (id: i64)
        ensures
            exists|counter: u64|
                self.drew(counter) && #[trigger] gives(self.slot(), timestamp_ms, counter, id),
            MIN_GLOBAL_ID <= id,
    {
        let counter: u64 = self.draw();
        assert(self.slot() == self.namespace);
        signed_id(self.namespace, timestamp_ms, counter)
    }
}

/// The timestamp of a moment is the whole milliseconds since the allocator started,
/// with all their bits, until these no longer fit in 39.
pub proof fn law_timestamps_are_the_time_since_the_start(ids: DisaggRequestIds, now: Instant)
    ensures
        clock_nanos(now) >= clock_nanos(ids.start()) && clock_nanos(now) - clock_nanos(ids.start())
            < 0x80_0000_0000 * 1_000_000 ==> {
            &&& ids.stamp_at(now) * 1_000_000 <= clock_nanos(now) - clock_nanos(ids.start())
            &&& clock_nanos(now) - clock_nanos(ids.start()) < (ids.stamp_at(now) + 1) * 1_000_000
        },
        clock_nanos(now) < clock_nanos(ids.start()) ==> ids.stamp_at(now) == 0,
{
}

/// An id that was minted carries a timestamp that is no earlier than the clock read
/// in that call, and exactly the clock's where the allocator is not ahead of it. It
/// carries the node and the process of the allocator, and the counter of the word
/// that was at hand. The timestamp is the one in the higher of the 63 bits that the
/// folding leaves in their place.
pub proof fn law_minted_ids_follow_the_clock(
    ids: DisaggRequestIds,
    held: u64,
    now: Instant,
    word: u64,
    id: i64,
)
    requires
        ids.may_give(held, now, word, id),
        ids.slot().node() < 256 && ids.slot().process() < 64,
        0 <= clock_nanos(now) - clock_nanos(ids.start()) < 0x80_0000_0000 * 1_000_000,
        word < 0x7f_fffe_ffff * 1024,
    ensures
        is_reading(now),
        ((id - 0x100_0000_0000) / 0x100_0000 + 1) * 1_000_000 > clock_nanos(now) - clock_nanos(
            ids.start(),
        ),
        held % 1024 != 0 && (held / 1024) * 1_000_000 <= clock_nanos(now) - clock_nanos(ids.start())
            ==> (id - 0x100_0000_0000) / 0x100_0000 * 1_000_000 <= clock_nanos(now) - clock_nanos(
            ids.start(),
        ),
        (id - 0x100_0000_0000) / 0x100_0000 >= held / 1024,
        (id - 0x100_0000_0000) / 0x1_0000 % 256 == ids.slot().node(),
        (id - 0x100_0000_0000) / 0x400 % 64 == ids.slot().process(),
        (id - 0x100_0000_0000) % 1024 == held % 1024,
{
    law_timestamps_are_the_time_since_the_start(ids, now);
    let stamp = ids.stamp_at(now);
    lemma_raised(held as int, stamp);
    lemma_word_parts(ids.slot(), word as int);
    if held % 1024 != 0 && (held / 1024) * 1_000_000 <= clock_nanos(now) - clock_nanos(ids.start()) {
        assert(held / 1024 <= stamp);
        assert(word / 1024 == stamp);
    }
}

/// The parts of the id of a word are the word's own.
proof fn lemma_word_parts(namespace: DisaggIdNamespace, word: int)
    requires
        namespace.node() < 256 && namespace.process() < 64,
        0 <= word < 0x7f_fffe_ffff * 1024,
    ensures
        ({
            let raw = word_id(namespace, word) - 0x100_0000_0000;
            &&& raw / 0x100_0000 == word / 1024
            &&& raw / 0x1_0000 % 256 == namespace.node()
            &&& raw / 0x400 % 64 == namespace.process()
            &&& raw % 1024 == word % 1024
        }),
{
    let node = namespace.node() as int;
    let process = namespace.process() as int;
    let timestamp = word / 1024;
    let low = word % 1024;
    assert(timestamp < 0x7f_fffe_ffff);
    assert(timestamp % (TIMESTAMP_SPACE as int) == timestamp);
    let raw = timestamp * 0x100_0000 + node * 0x1_0000 + process * 0x400 + low;
    assert(packed(node, process, timestamp, word) == raw);
    assert(0 <= raw < GLOBAL_ID_SPAN);
    lemma_folding_below_the_span(raw);
    lemma_unpacks(timestamp, node, process, low);
    assert(raw / 0x100_0000 == timestamp);
}

/// Of two ids of one allocator the later one is the larger one: where the word that
/// one took had been left behind when the other was taken, its id is smaller.
pub proof fn law_later_ids_are_larger(
    ids: DisaggRequestIds,
    first: (u64, Instant, u64, i64),
    second: (u64, Instant, u64, i64),
)
    requires
        ids.may_give(first.0, first.1, first.2, first.3),
        ids.may_give(second.0, second.1, second.2, second.3),
        first.2 < second.0,
        second.2 < 0x7f_fffe_ffff * 1024,
        ids.slot().node() < 256 && ids.slot().process() < 64,
    ensures
        first.3 < second.3,
        first.2 < second.2,
{
    lemma_raised(second.0 as int, ids.stamp_at(second.1));
    lemma_word_parts(ids.slot(), second.2 as int);
    lemma_word_parts(ids.slot(), first.2 as int);
    lemma_word_is_below_the_span(ids.slot(), second.2 as int);
    lemma_ids_grow(ids.slot(), first.2 as int, second.2 as int);
}

proof fn lemma_word_is_below_the_span(namespace: DisaggIdNamespace, word: int)
    requires
        namespace.node() < 256 && namespace.process() < 64,
        0 <= word < 0x7f_fffe_ffff * 1024,
    ensures
        packed(namespace.node() as int, namespace.process() as int, word / 1024, word)
            < GLOBAL_ID_SPAN,
{
    assert(word / 1024 < 0x7f_fffe_ffff);
    assert(word / 1024 % (TIMESTAMP_SPACE as int) == word / 1024);
    assert(word % 1024 < 1024);
}

/// A word that was taken is no longer at hand: what this allocator's own word was
/// given in place of what was at hand is larger than both, or two words were drawn
/// at once and the one at hand was one of them.
pub proof fn law_taken_words_are_gone(
    ids: DisaggRequestIds,
    held: u64,
    now: Instant,
    word: u64,
    id: i64,
)
    requires
        ids.may_give(held, now, word, id),
        word < u64::MAX,
    ensures
        ({
            ||| exists|left: u64| left > word && left > held && #[trigger] ids.replaced(held, left)
            ||| exists|first: u64|
                (held == first || held == first + 1 || first == u64::MAX) && held % 1024 != 0
                    && #[trigger] ids.drew_two(first)
        }),
        word >= held,
{
    lemma_raised(held as int, ids.stamp_at(now));
    if exists|left: u64| left == word_left(word as int) && #[trigger] ids.replaced(held, left) {
        let left = choose|left: u64|
            left == word_left(word as int) && #[trigger] ids.replaced(held, left);
        assert(left > word && left > held && ids.replaced(held, left));
    } else {
        let first = choose|first: u64|
            held == (if first % COUNTER_SPACE == 0 {
                word_left(first as int)
            } else {
                first as int
            }) && #[trigger] ids.drew_two(first);
        assert(ids.drew_two(first));
    }
}

/// A counter that has just wrapped is given out only ahead of the clock, and only
/// after two milliseconds in which the clock did not leave its millisecond.
pub proof fn law_wrapped_counters_wait_for_the_clock(
    ids: DisaggRequestIds,
    held: u64,
    now: Instant,
    word: u64,
    id: i64,
)
    requires
        ids.may_give(held, now, word, id),
        word % 1024 == 0,
    ensures
        word / 1024 > ids.stamp_at(now),
        exists|began: Instant, seen: Instant, last: Instant|
            is_reading(began) && is_reading(seen) && is_reading(last) && ids.stamp_at(seen)
                == ids.stamp_at(now) && clock_nanos(last) - clock_nanos(began) >= 2_000_000
                && #[trigger] ids.waited(ids.stamp_at(now), began, seen, last),
{
    lemma_raised(held as int, ids.stamp_at(now));
    let (began, seen, last) = choose|began: Instant, seen: Instant, last: Instant| #[trigger]
        ids.waited(ids.stamp_at(now), began, seen, last);
    assert(ids.waited(ids.stamp_at(now), began, seen, last));
}

impl RequestIds for DisaggRequestIds {
    /// Any id that the allocator may give.
    open spec fn may_mint(&self, id: i64) -> bool {
        MIN_GLOBAL_ID <= id && exists|held: u64, now: Instant, word: u64| #[trigger]
            self.may_give(held, now, word, id)
    }

    fn mint(&self) -> (id: i64) {
        self.next()
    }
}

/// What was drawn from an allocator, and what was replaced in it, was so in its own
/// word, which starts at zero.
proof fn law_draws_are_of_the_allocators_word(ids: DisaggRequestIds, held: u64, left: u64)
    ensures
        ids.drew(held) ==> call_ensures(
            AtomicU64::fetch_add,
            (&ids.word, 1u64, std::sync::atomic::Ordering::Relaxed),
            held,
        ),
        ids.drew_two(held) ==> call_ensures(
            AtomicU64::fetch_add,
            (&ids.word, 2u64, std::sync::atomic::Ordering::Relaxed),
            held,
        ),
        ids.replaced(held, left) ==> exists|outcome: Result<u64, u64>| outcome is Ok && #[trigger]
            call_ensures(
                AtomicU64::compare_exchange,
                (
                    &ids.word,
                    held,
                    left,
                    std::sync::atomic::Ordering::Relaxed,
                    std::sync::atomic::Ordering::Relaxed,
                ),
                outcome,
            ),
        ids.fresh() ==> call_ensures(AtomicU64::new, (0u64,), ids.word),
        ids.start() == ids.started,
        ids.slot() == ids.namespace,
{
}

/// An id that is given to a millisecond and a counter carries that millisecond, the
/// node, the process, and the counter modulo 1024, as long as folding does not wrap.
pub proof fn law_given_ids_carry_their_parts(
    namespace: DisaggIdNamespace,
    timestamp_ms: u64,
    counter: u64,
    id: i64,
)
    requires
        gives(namespace, timestamp_ms, counter, id),
        namespace.node() < 256 && namespace.process() < 64,
        timestamp_ms < 0x7f_fffe_ffff,
    ensures
        (id - 0x100_0000_0000) / 0x100_0000 == timestamp_ms,
        (id - 0x100_0000_0000) / 0x1_0000 % 256 == namespace.node(),
        (id - 0x100_0000_0000) / 0x400 % 64 == namespace.process(),
        (id - 0x100_0000_0000) % 1024 == counter % 1024,
{
    let word = timestamp_ms * 1024 + counter % 1024;
    assert(word / 1024 == timestamp_ms);
    assert(word % 1024 == counter % 1024);
    lemma_word_parts(namespace, word as int);
}

} // verus!
