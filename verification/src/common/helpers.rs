use rand::distributions::{IndependentSample, Range};
use rand::thread_rng;
use vstd::prelude::*;

verus! {

/// A value that can be put into words for a log line.
pub trait Description {
    /// True of the values that have a description.
    spec fn describable(&self) -> bool;

    /// The words that describe the value.
    spec fn description_text(&self) -> Seq<char>;

    /// Puts the value into words.
    fn description(&self) -> (text: String)
        requires
            self.describable(),
        ensures
            text@ == self.description_text(),
    ;
}

/// True where every character of `text` has a code from `begin` up to, and
/// not including, `end`.
pub open spec fn chars_within(text: Seq<char>, begin: u32, end: u32) -> bool {
    forall|i: int|
        0 <= i < text.len() ==> begin <= (#[trigger] text[i] as u32) && (text[i] as u32) < end
}

/// Draws one number from `begin` up to, and not including, `end` with
/// `Range::new(begin, end).ind_sample(..)` on the thread's generator
/// (`thread_rng`). `Range::new` panics unless `begin < end`; the sample
/// lies in the half-open range, and nothing more is known of it.
#[verifier::external_body]
fn sample_range(begin: u32, end: u32) -> (sample: u32)
    requires
        begin < end,
    ensures
        begin <= sample < end,
{
    Range::new(begin, end).ind_sample(&mut thread_rng())
}

/// A string of `size` random characters whose codes lie from `ascii_begin`
/// up to, and not including, `ascii_end`.
fn get_random_chars(size: usize, ascii_begin: u32, ascii_end: u32) -> (line: String)
    requires
        ascii_begin < ascii_end <= 128,
    ensures
        line@.len() == size,
        chars_within(line@, ascii_begin, ascii_end),
{
    let mut line = String::new();
    let mut count: usize = 0;
    while count < size
        invariant
            count <= size,
            line@.len() == count,
            chars_within(line@, ascii_begin, ascii_end),
            ascii_begin < ascii_end <= 128,
        decreases size - count,
    {
        let sample = sample_range(ascii_begin, ascii_end);
        let ch = (sample as u8) as char;
        line.push(ch);
        count += 1;
    }
    line
}

/// A string of `size` random printable characters, codes 48 to 125.
pub fn get_random_string(size: usize) -> (line: String)
    ensures
        line@.len() == size,
        chars_within(line@, 48, 126),
{
    get_random_chars(size, 48, 126)
}

/// A string of `size` random digits, codes 48 to 56.
pub fn get_random_digit_string(size: usize) -> (line: String)
    ensures
        line@.len() == size,
        chars_within(line@, 48, 57),
{
    get_random_chars(size, 48, 57)
}

} // verus!
