//! Progress bookkeeping: the byte counter, the smoothed rate and the texts
//! that a progress display shows.
//!
//! Nothing here reads a clock or draws anything. Times are handed in as
//! whole milliseconds since the tracker was made, and the display is a
//! matter of whoever owns a terminal.

use vstd::prelude::*;
use vstd::string::*;

use crate::paths::{file_name, file_name_spec};
use crate::text::{chars_of, decimal, decimal_spec, starts_with, two_digits, two_digits_spec};

verus! {

/// The rate is sampled again once this many milliseconds have passed.
pub const SAMPLE_INTERVAL_MS: u64 = 500;

/// An addition of fewer bytes than this never samples the rate: 64 KiB.
pub const SAMPLE_MIN_BYTES: u64 = 65536;

/// Position just behind the last `c` of `s[..n]`, or 0 where there is none.
pub open spec fn after_last(s: Seq<char>, c: char, n: int) -> int
    decreases n,
{
    if 0 < n <= s.len() && s[n - 1] != c {
        after_last(s, c, n - 1)
    } else {
        n
    }
}

/// The last part of a path, for display: its final name where it has one;
/// otherwise what follows its last slash, or where it has no slash what
/// follows its last backslash, if anything follows; otherwise the path.
pub open spec fn last_part_of_path_spec(path: Seq<char>) -> Seq<char> {
    match file_name_spec(path) {
        Some(name) => name,
        None => {
            let n = path.len() as int;
            let slash = after_last(path, '/', n);
            let backslash = after_last(path, '\\', n);
            if slash > 0 {
                if slash < n {
                    path.subrange(slash, n)
                } else {
                    path
                }
            } else if 0 < backslash < n {
                path.subrange(backslash, n)
            } else {
                path
            }
        },
    }
}

/// The last part of a path or of a description that ends in a path.
pub open spec fn last_part_spec(text: Seq<char>) -> Seq<char> {
    if "Uploading from "@.is_prefix_of(text) {
        last_part_of_path_spec(text.skip("Uploading from "@.len() as int))
    } else if "Downloading from "@.is_prefix_of(text) {
        last_part_of_path_spec(text.skip("Downloading from "@.len() as int))
    } else {
        last_part_of_path_spec(text)
    }
}

fn after_last_at(chars: &Vec<char>, c: char) -> (r: usize)
    ensures
        r == after_last(chars@, c, chars.len() as int),
        r <= chars.len(),
{
    let mut r: usize = chars.len();
    while r > 0 && chars[r - 1] != c
        invariant
            r <= chars.len(),
            after_last(chars@, c, r as int) == after_last(chars@, c, chars.len() as int),
        decreases r,
    {
        r -= 1;
    }
    r
}

/// The last part of `path`, for display.
pub fn extract_last_part_from_path(path: &str) -> (r: String)
    ensures
        r@ == last_part_of_path_spec(path@),
{
    if let Some(name) = file_name(path) {
        return name;
    }
    let chars = chars_of(path);
    let n = chars.len();
    let slash = after_last_at(&chars, '/');
    if slash > 0 {
        if slash < n {
            return path.substring_char(slash, n).to_owned();
        }
        return path.to_owned();
    }
    let backslash = after_last_at(&chars, '\\');
    if 0 < backslash && backslash < n {
        return path.substring_char(backslash, n).to_owned();
    }
    path.to_owned()
}

/// The last part of a path, or of a description of the form
/// `Uploading from <path>` or `Downloading from <path>`.
pub fn extract_last_part(path_or_description: &str) -> (r: String)
    ensures
        r@ == last_part_spec(path_or_description@),
{
    let n = path_or_description.unicode_len();
    if starts_with(path_or_description, "Uploading from ") {
        let skip = "Uploading from ".unicode_len();
        assert(path_or_description@.subrange(skip as int, n as int) == path_or_description@.skip(
            skip as int,
        ));
        extract_last_part_from_path(path_or_description.substring_char(skip, n))
    } else if starts_with(path_or_description, "Downloading from ") {
        let skip = "Downloading from ".unicode_len();
        assert(path_or_description@.subrange(skip as int, n as int) == path_or_description@.skip(
            skip as int,
        ));
        extract_last_part_from_path(path_or_description.substring_char(skip, n))
    } else {
        extract_last_part_from_path(path_or_description)
    }
}

/// `num / den` rounded to the nearest integer, a tie going to the even one.
pub open spec fn round_half_even(num: nat, den: nat) -> nat {
    let q = num / den;
    let r = num % den;
    if 2 * r > den || (2 * r == den && q % 2 == 1) {
        q + 1
    } else {
        q
    }
}

/// The power of two in whose multiples a 64-bit number is kept once it is
/// cut to 53 significant bits.
pub open spec fn unit_of_53_bits(x: u64) -> nat {
    if x < 0x20_0000_0000_0000 {
        1
    } else if x < 0x40_0000_0000_0000 {
        2
    } else if x < 0x80_0000_0000_0000 {
        4
    } else if x < 0x100_0000_0000_0000 {
        8
    } else if x < 0x200_0000_0000_0000 {
        16
    } else if x < 0x400_0000_0000_0000 {
        32
    } else if x < 0x800_0000_0000_0000 {
        64
    } else if x < 0x1000_0000_0000_0000 {
        128
    } else if x < 0x2000_0000_0000_0000 {
        256
    } else if x < 0x4000_0000_0000_0000 {
        512
    } else if x < 0x8000_0000_0000_0000 {
        1024
    } else {
        2048
    }
}

/// `x` as the nearest number of at most 53 significant bits, a tie going to
/// the even one: the value that a double-precision number holds for it.
pub open spec fn to_53_bits(x: u64) -> nat {
    round_half_even(x as nat, unit_of_53_bits(x)) * unit_of_53_bits(x)
}

/// The rate in hundredths of `unit` bytes per second.
pub open spec fn hundredths_spec(rate: u64, unit: nat) -> nat {
    round_half_even(to_53_bits(rate) * 100, unit)
}

/// The rate in units of `unit` bytes per second, with two decimals.
pub open spec fn scaled_spec(rate: u64, unit: nat) -> Seq<char> {
    decimal_spec(hundredths_spec(rate, unit) / 100) + seq!['.'] + two_digits_spec(
        hundredths_spec(rate, unit) % 100,
    )
}

/// The text of a rate: plain bytes below 1024, and above that the largest
/// of KB, MB and GB (powers of 1024) that does not exceed it, to two
/// decimals.
pub open spec fn format_speed_spec(rate: u64) -> Seq<char> {
    if rate < 1024 {
        decimal_spec(rate as nat) + " B/s"@
    } else if rate < 1048576 {
        scaled_spec(rate, 1024) + " KB/s"@
    } else if rate < 1073741824 {
        scaled_spec(rate, 1048576) + " MB/s"@
    } else {
        scaled_spec(rate, 1073741824) + " GB/s"@
    }
}

fn unit_of(x: u64) -> (r: u64)
    ensures
        r == unit_of_53_bits(x),
        1 <= r <= 2048,
{
    if x < 0x20_0000_0000_0000 {
        1
    } else if x < 0x40_0000_0000_0000 {
        2
    } else if x < 0x80_0000_0000_0000 {
        4
    } else if x < 0x100_0000_0000_0000 {
        8
    } else if x < 0x200_0000_0000_0000 {
        16
    } else if x < 0x400_0000_0000_0000 {
        32
    } else if x < 0x800_0000_0000_0000 {
        64
    } else if x < 0x1000_0000_0000_0000 {
        128
    } else if x < 0x2000_0000_0000_0000 {
        256
    } else if x < 0x4000_0000_0000_0000 {
        512
    } else if x < 0x8000_0000_0000_0000 {
        1024
    } else {
        2048
    }
}

fn rounded_quotient(num: u128, den: u128) -> (r: u128)
    requires
        den > 0,
        num <= 0xffff_ffff_ffff_ffff_ffff,
        den <= 0xffff_ffff,
    ensures
        r == round_half_even(num as nat, den as nat),
        r * den <= num + den,
{
    let q: u128 = num / den;
    let rest: u128 = num % den;
    assert(q * den <= num && q <= num) by (nonlinear_arith)
        requires
            q == num / den,
            den > 0,
    ;
    assert((q + 1) * den == q * den + den) by (nonlinear_arith);
    if 2 * rest > den || (2 * rest == den && q % 2 == 1) {
        q + 1
    } else {
        q
    }
}

fn scaled(rate: u64, unit: u64) -> (r: String)
    requires
        1024 <= unit <= 1073741824,
    ensures
        r@ == scaled_spec(rate, unit as nat),
{
    let step = unit_of(rate);
    let kept: u128 = rounded_quotient(rate as u128, step as u128);
    let value: u128 = kept * (step as u128);
    assert(value == to_53_bits(rate));
    let h: u128 = rounded_quotient(value * 100, unit as u128);
    assert(h == hundredths_spec(rate, unit as nat));
    assert(h <= 0xffff_ffff_ffff_ffff) by (nonlinear_arith)
        requires
            h * unit <= value * 100 + unit,
            value <= 0x1_0000_0000_0000_0800,
            1024 <= unit <= 1073741824,
    ;
    let whole: u128 = h / 100;
    let part: u128 = h % 100;
    let mut out = decimal(whole as u64);
    proof {
        reveal_strlit(".");
    }
    out.append(".");
    out.append(two_digits(part as u64).as_str());
    assert("."@ =~= seq!['.']);
    out
}

/// The text of a rate in bytes per second.
pub fn format_speed(bytes_per_sec: u64) -> (r: String)
    ensures
        r@ == format_speed_spec(bytes_per_sec),
{
    if bytes_per_sec < 1024 {
        let mut out = decimal(bytes_per_sec);
        out.append(" B/s");
        out
    } else if bytes_per_sec < 1048576 {
        let mut out = scaled(bytes_per_sec, 1024);
        out.append(" KB/s");
        out
    } else if bytes_per_sec < 1073741824 {
        let mut out = scaled(bytes_per_sec, 1048576);
        out.append(" MB/s");
        out
    } else {
        let mut out = scaled(bytes_per_sec, 1073741824);
        out.append(" GB/s");
        out
    }
}

/// Bytes per second, given the bytes moved in `elapsed_ms` milliseconds:
/// the quotient rounded down, at most `u64::MAX`, and 0 where no time has
/// passed.
pub open spec fn rate_spec(bytes: u64, elapsed_ms: u64) -> u64 {
    if elapsed_ms == 0 {
        0
    } else if bytes * 1000 / (elapsed_ms as int) > u64::MAX {
        u64::MAX
    } else {
        (bytes * 1000 / (elapsed_ms as int)) as u64
    }
}

/// The rate over one sampling interval.
pub fn rate(bytes: u64, elapsed_ms: u64) -> (r: u64)
    ensures
        r == rate_spec(bytes, elapsed_ms),
{
    if elapsed_ms == 0 {
        return 0;
    }
    let scaled: u128 = (bytes as u128) * 1000;
    let per_second: u128 = scaled / (elapsed_ms as u128);
    if per_second > u64::MAX as u128 {
        u64::MAX
    } else {
        per_second as u64
    }
}

/// The average rate over a whole transfer: the bytes per full second, and
/// the bytes themselves where the transfer took less than a second.
pub open spec fn average_rate_spec(total: u64, elapsed_secs: u64) -> u64 {
    if elapsed_secs > 0 {
        total / elapsed_secs
    } else {
        total
    }
}

/// The average rate over a whole transfer.
pub fn average_rate(total: u64, elapsed_secs: u64) -> (r: u64)
    ensures
        r == average_rate_spec(total, elapsed_secs),
{
    if elapsed_secs > 0 {
        total / elapsed_secs
    } else {
        total
    }
}

/// The count after `b` was added to `a`: their sum, or the largest count
/// where the sum does not fit. A count never goes down.
pub open spec fn counted_up(a: u64, b: u64) -> u64 {
    if a + b > u64::MAX {
        u64::MAX
    } else {
        (a + b) as u64
    }
}

/// The larger of two counts.
pub open spec fn later_count(a: u64, b: u64) -> u64 {
    if b >= a {
        b
    } else {
        a
    }
}

/// A tracker as plain values.
pub struct TrackerModel {
    pub total_size: u64,
    /// Bytes counted so far.
    pub transferred: u64,
    /// When the rate was last sampled, in milliseconds since the start.
    pub last_sample_ms: u64,
    /// The count at the last sample.
    pub last_sample_bytes: u64,
    /// Short name shown before the bar.
    pub prefix: Seq<char>,
    pub current_file: Seq<char>,
    /// Text shown behind the bar: the rate, or how the transfer ended.
    pub message: Seq<char>,
}

impl TrackerModel {
    /// The tracker as it is made.
    pub open spec fn initial(total_size: u64, description: Seq<char>) -> TrackerModel {
        TrackerModel {
            total_size,
            transferred: 0,
            last_sample_ms: 0,
            last_sample_bytes: 0,
            prefix: last_part_spec(description),
            current_file: Seq::empty(),
            message: Seq::empty(),
        }
    }

    /// Whether a sample is due at `now_ms`.
    pub open spec fn sample_due(self, now_ms: u64) -> bool {
        now_ms - self.last_sample_ms >= SAMPLE_INTERVAL_MS
    }

    /// The tracker after the rate was looked at with `current` bytes counted:
    /// unchanged unless a sample is due.
    pub open spec fn sampled(self, current: u64, now_ms: u64) -> TrackerModel {
        if self.sample_due(now_ms) {
            let moved = if current >= self.last_sample_bytes {
                (current - self.last_sample_bytes) as u64
            } else {
                0
            };
            TrackerModel {
                message: format_speed_spec(
                    rate_spec(moved, (now_ms - self.last_sample_ms) as u64),
                ),
                last_sample_ms: now_ms,
                last_sample_bytes: current,
                ..self
            }
        } else {
            self
        }
    }

    /// The tracker after the count was raised to `bytes`. A position below
    /// the count is one that arrived late: the count stays where it is.
    pub open spec fn updated(self, bytes: u64, now_ms: u64) -> TrackerModel {
        let count = later_count(self.transferred, bytes);
        (TrackerModel { transferred: count, ..self }).sampled(count, now_ms)
    }

    /// The tracker after `bytes` were added to the count.
    pub open spec fn added(self, bytes: u64, now_ms: u64) -> TrackerModel {
        let counted = TrackerModel { transferred: counted_up(self.transferred, bytes), ..self };
        if bytes >= SAMPLE_MIN_BYTES {
            counted.sampled(counted.transferred, now_ms)
        } else {
            counted
        }
    }

    /// The text that closes a completed transfer.
    pub open spec fn completion_text(self, elapsed_secs: u64) -> Seq<char> {
        "Transfer completed (avg speed: "@ + format_speed_spec(
            average_rate_spec(self.transferred, elapsed_secs),
        ) + ")"@
    }
}

/// The text that closes a failed transfer.
pub open spec fn failure_text(error: Seq<char>) -> Seq<char> {
    "Transfer failed: "@ + error
}

/// The bookkeeping behind one progress display.
#[derive(Debug)]
pub struct ProgressTracker {
    total_size: u64,
    transferred_bytes: u64,
    last_update_ms: u64,
    last_bytes: u64,
    prefix: String,
    current_file: String,
    message: String,
}

impl View for ProgressTracker {
    type V = TrackerModel;

    closed spec fn view(&self) -> TrackerModel {
        TrackerModel {
            total_size: self.total_size,
            transferred: self.transferred_bytes,
            last_sample_ms: self.last_update_ms,
            last_sample_bytes: self.last_bytes,
            prefix: self.prefix@,
            current_file: self.current_file@,
            message: self.message@,
        }
    }
}

impl ProgressTracker {
    /// A tracker for `total_size` bytes. The display is named after the last
    /// part of `description`.
    pub fn new(total_size: u64, description: &str) -> (t: ProgressTracker)
        ensures
            t@ == TrackerModel::initial(total_size, description@),
    {
        ProgressTracker {
            total_size,
            transferred_bytes: 0,
            last_update_ms: 0,
            last_bytes: 0,
            prefix: extract_last_part(description),
            current_file: String::new(),
            message: String::new(),
        }
    }

    /// Names the file that is being moved; the display shows its last part.
    pub fn set_current_file(&mut self, filename: &str)
        ensures
            final(self)@ == (TrackerModel {
                current_file: filename@,
                prefix: last_part_spec(filename@),
                ..old(self)@
            }),
    {
        self.current_file = filename.to_owned();
        self.prefix = extract_last_part(filename);
    }

    fn update_speed(&mut self, current_bytes: u64, now_ms: u64)
        ensures
            final(self)@ == old(self)@.sampled(current_bytes, now_ms),
    {
        let elapsed = now_ms.saturating_sub(self.last_update_ms);
        if elapsed >= SAMPLE_INTERVAL_MS {
            let moved = current_bytes.saturating_sub(self.last_bytes);
            self.message = format_speed(rate(moved, elapsed));
            self.last_update_ms = now_ms;
            self.last_bytes = current_bytes;
        }
    }

    /// Raises the count to `bytes_transferred` and samples the rate if a
    /// sample is due at `now_ms`. The count never goes down: a position below
    /// it leaves it unchanged.
    pub fn update(&mut self, bytes_transferred: u64, now_ms: u64)
        ensures
            final(self)@ == old(self)@.updated(bytes_transferred, now_ms),
            final(self)@.transferred == if bytes_transferred >= old(self)@.transferred {
                bytes_transferred
            } else {
                old(self)@.transferred
            },
            final(self)@.transferred >= old(self)@.transferred,
    {
        if bytes_transferred > self.transferred_bytes {
            self.transferred_bytes = bytes_transferred;
        }
        let count = self.transferred_bytes;
        self.update_speed(count, now_ms);
    }

    /// Adds `bytes` to the count and returns the new count, which stops at
    /// `u64::MAX` and never goes down. The rate is only
    /// sampled for additions of at least `SAMPLE_MIN_BYTES`.
    pub fn add_bytes(&mut self, bytes: u64, now_ms: u64) -> (count: u64)
        ensures
            final(self)@ == old(self)@.added(bytes, now_ms),
            count == counted_up(old(self)@.transferred, bytes),
            final(self)@.transferred == count,
            old(self)@.transferred + bytes <= u64::MAX ==> count == old(self)@.transferred + bytes,
            count >= old(self)@.transferred,
    {
        let count = self.transferred_bytes.saturating_add(bytes);
        self.transferred_bytes = count;
        if bytes >= SAMPLE_MIN_BYTES {
            self.update_speed(count, now_ms);
        }
        count
    }

    /// Closes the display of a completed transfer that took `elapsed_secs`
    /// full seconds.
    pub fn finish(&mut self, elapsed_secs: u64)
        ensures
            final(self)@ == (TrackerModel {
                message: old(self)@.completion_text(elapsed_secs),
                ..old(self)@
            }),
    {
        let mut text = "Transfer completed (avg speed: ".to_owned();
        text.append(format_speed(average_rate(self.transferred_bytes, elapsed_secs)).as_str());
        text.append(")");
        self.message = text;
    }

    /// Closes the display of a failed transfer.
    pub fn finish_with_error(&mut self, error: &str)
        ensures
            final(self)@ == (TrackerModel { message: failure_text(error@), ..old(self)@ }),
    {
        let mut text = "Transfer failed: ".to_owned();
        text.append(error);
        self.message = text;
    }

    /// Bytes counted so far.
    pub fn position(&self) -> (n: u64)
        ensures
            n == self@.transferred,
    {
        self.transferred_bytes
    }

    /// Bytes that the display expects in all.
    pub fn total_size(&self) -> (n: u64)
        ensures
            n == self@.total_size,
    {
        self.total_size
    }

    /// The text behind the bar.
    pub fn message(&self) -> (r: String)
        ensures
            r@ == self@.message,
    {
        self.message.clone()
    }

    /// The short name before the bar.
    pub fn prefix(&self) -> (r: String)
        ensures
            r@ == self@.prefix,
    {
        self.prefix.clone()
    }

    /// The file named last.
    pub fn current_file(&self) -> (r: String)
        ensures
            r@ == self@.current_file,
    {
        self.current_file.clone()
    }
}

/// Sum of the additions.
pub open spec fn sum_of(adds: Seq<u64>) -> nat
    decreases adds.len(),
{
    if adds.len() == 0 {
        0
    } else {
        sum_of(adds.drop_last()) + adds.last() as nat
    }
}

/// The count after the additions were applied, one after the other, to a
/// counter that stood at `start`.
pub open spec fn counter_after(start: u64, adds: Seq<u64>) -> u64
    decreases adds.len(),
{
    if adds.len() == 0 {
        start
    } else {
        counted_up(counter_after(start, adds.drop_last()), adds.last())
    }
}

/// Leaving one addition out lowers the sum by that addition.
pub proof fn lemma_sum_of_remove(adds: Seq<u64>, i: int)
    requires
        0 <= i < adds.len(),
    ensures
        sum_of(adds) == sum_of(adds.remove(i)) + adds[i],
    decreases adds.len(),
{
    if i == adds.len() - 1 {
        assert(adds.remove(i) =~= adds.drop_last());
    } else {
        lemma_sum_of_remove(adds.drop_last(), i);
        assert(adds.remove(i).drop_last() =~= adds.drop_last().remove(i));
        assert(adds.remove(i).last() == adds.last());
    }
}

/// Two sequences of the same additions, in whatever order, have one sum.
pub proof fn lemma_sum_of_permutation(a: Seq<u64>, b: Seq<u64>)
    requires
        a.to_multiset() == b.to_multiset(),
    ensures
        sum_of(a) == sum_of(b),
    decreases a.len(),
{
    broadcast use vstd::seq_lib::group_to_multiset_ensures;

    assert(a.len() == b.len()) by {
        assert(a.len() == a.to_multiset().len());
        assert(b.len() == b.to_multiset().len());
    }
    if a.len() > 0 {
        let x = a.last();
        assert(a.to_multiset().count(x) > 0) by {
            assert(a.contains(x));
        }
        assert(b.contains(x));
        let j = choose|j: int| 0 <= j < b.len() && b[j] == x;
        assert(a.drop_last() =~= a.remove(a.len() - 1));
        assert(a.drop_last().to_multiset() =~= b.remove(j).to_multiset());
        lemma_sum_of_permutation(a.drop_last(), b.remove(j));
        lemma_sum_of_remove(b, j);
    }
}

/// The counter holds the sum of what was added to it, as far as it can
/// count.
pub proof fn lemma_counter_is_sum(start: u64, adds: Seq<u64>)
    ensures
        counter_after(start, adds) == if start + sum_of(adds) > u64::MAX {
            u64::MAX as int
        } else {
            start + sum_of(adds)
        },
    decreases adds.len(),
{
    if adds.len() > 0 {
        lemma_counter_is_sum(start, adds.drop_last());
    }
}

/// Additions that come from any number of workers and sum to a total that
/// the counter can hold leave the counter at exactly that total.
pub proof fn law_counter_holds_the_sum(adds: Seq<u64>)
    requires
        sum_of(adds) <= u64::MAX,
    ensures
        counter_after(0, adds) == sum_of(adds),
{
    lemma_counter_is_sum(0, adds);
}

/// The count only ever grows: no addition and no update lowers it, and
/// sampling the rate leaves it alone.
pub proof fn law_count_never_goes_down(tracker: TrackerModel, bytes: u64, now_ms: u64)
    ensures
        tracker.added(bytes, now_ms).transferred >= tracker.transferred,
        tracker.updated(bytes, now_ms).transferred >= tracker.transferred,
        tracker.updated(bytes, now_ms).transferred >= bytes,
        tracker.sampled(bytes, now_ms).transferred == tracker.transferred,
{
}

/// The order in which additions reach the counter does not matter: two
/// interleavings of the same additions end at the same count.
pub proof fn law_interleaving_is_irrelevant(start: u64, a: Seq<u64>, b: Seq<u64>)
    requires
        a.to_multiset() == b.to_multiset(),
    ensures
        counter_after(start, a) == counter_after(start, b),
{
    lemma_sum_of_permutation(a, b);
    lemma_counter_is_sum(start, a);
    lemma_counter_is_sum(start, b);
}

/// The tracker after a series of additions, each with the time at which it
/// arrived.
pub open spec fn after_adds(tracker: TrackerModel, adds: Seq<(u64, u64)>) -> TrackerModel
    decreases adds.len(),
{
    if adds.len() == 0 {
        tracker
    } else {
        after_adds(tracker, adds.drop_last()).added(adds.last().0, adds.last().1)
    }
}

/// The bytes of a series of additions.
pub open spec fn bytes_of(adds: Seq<(u64, u64)>) -> Seq<u64> {
    adds.map_values(|add: (u64, u64)| add.0)
}

/// The count of a tracker is the count of a plain counter: sampling the
/// rate never changes it.
pub proof fn law_tracker_counts_like_counter(tracker: TrackerModel, adds: Seq<(u64, u64)>)
    ensures
        after_adds(tracker, adds).transferred == counter_after(tracker.transferred, bytes_of(adds)),
        after_adds(tracker, adds).total_size == tracker.total_size,
    decreases adds.len(),
{
    if adds.len() > 0 {
        law_tracker_counts_like_counter(tracker, adds.drop_last());
        assert(bytes_of(adds).drop_last() =~= bytes_of(adds.drop_last()));
    }
}

} // verus!
