//! Conversion of the text given to a property's `set` command into a value.
use vstd::prelude::*;

verus! {

/// Parses the text of a property's `set` command into a value of type `V`.
pub trait ValueInput<V> {
    /// What parsing `text` gives: the value, or a message that says why the
    /// text is not one.
    spec fn parsed(&self, text: Seq<char>) -> Result<V, Seq<char>>;

    /// Parses `text`.
    fn input(&self, text: &str) -> (r: Result<V, String>)
        ensures
            match r {
                Ok(v) => self.parsed(text@) == Ok::<V, Seq<char>>(v),
                Err(e) => self.parsed(text@) == Err::<V, Seq<char>>(e@),
            },
    ;
}

/// The message given for text that is not a decimal number.
pub const NOT_A_NUMBER: &'static str = "not a decimal number";

/// The message given for a decimal number above `u32::MAX`.
pub const OUT_OF_RANGE: &'static str = "number too large";

/// Whether `c` is an ASCII decimal digit.
pub open spec fn is_digit(c: char) -> bool {
    '0' <= c && c <= '9'
}

/// The value of the decimal digits `s`, most significant first.
pub open spec fn decimal_value(s: Seq<char>) -> nat
    decreases s.len(),
{
    if s.len() == 0 {
        0
    } else {
        (decimal_value(s.drop_last()) * 10 + (s.last() as nat - '0' as nat)) as nat
    }
}

/// What parsing `text` as a `u32` gives: one or more decimal digits whose
/// value fits, or a message.
pub open spec fn decimal_u32(text: Seq<char>) -> Result<u32, Seq<char>> {
    if text.len() == 0 || exists|i: int| 0 <= i < text.len() && !is_digit(#[trigger] text[i]) {
        Err(NOT_A_NUMBER@)
    } else if decimal_value(text) > u32::MAX {
        Err(OUT_OF_RANGE@)
    } else {
        Ok(decimal_value(text) as u32)
    }
}

/// A value of decimal digits never falls as digits are added.
proof fn lemma_decimal_value_grows(s: Seq<char>, i: int)
    requires
        0 <= i <= s.len(),
        forall|k: int| 0 <= k < s.len() ==> is_digit(#[trigger] s[k]),
    ensures
        decimal_value(s.subrange(0, i)) <= decimal_value(s),
    decreases s.len(),
{
    if i < s.len() {
        assert(s.drop_last().subrange(0, i) =~= s.subrange(0, i));
        lemma_decimal_value_grows(s.drop_last(), i);
    } else {
        assert(s.subrange(0, i) =~= s);
    }
}

/// Parses unsigned decimal numbers that fit in a `u32`.
pub struct U32Input;

impl ValueInput<u32> for U32Input {
    open spec fn parsed(&self, text: Seq<char>) -> Result<u32, Seq<char>> {
        decimal_u32(text)
    }

    fn input(&self, text: &str) -> (r: Result<u32, String>) {
        let n = text.unicode_len();
        if n == 0 {
            return Err(String::from_str(NOT_A_NUMBER));
        }
        let mut i: usize = 0;
        while i < n
            invariant
                n == text@.len(),
                i <= n,
                forall|k: int| 0 <= k < i ==> is_digit(#[trigger] text@[k]),
            decreases n - i,
        {
            let c = text.get_char(i);
            if !('0' <= c && c <= '9') {
                return Err(String::from_str(NOT_A_NUMBER));
            }
            i = i + 1;
        }
        let mut value: u64 = 0;
        let mut j: usize = 0;
        while j < n
            invariant
                n == text@.len(),
                j <= n,
                forall|k: int| 0 <= k < n ==> is_digit(#[trigger] text@[k]),
                value == decimal_value(text@.subrange(0, j as int)),
                value <= u32::MAX,
            decreases n - j,
        {
            let c = text.get_char(j);
            let d = (c as u32 - '0' as u32) as u64;
            assert(text@.subrange(0, j + 1).drop_last() =~= text@.subrange(0, j as int));
            value = value * 10 + d;
            j = j + 1;
            if value > u32::MAX as u64 {
                proof {
                    lemma_decimal_value_grows(text@, j as int);
                }
                return Err(String::from_str(OUT_OF_RANGE));
            }
        }
        assert(text@.subrange(0, n as int) =~= text@);
        Ok(value as u32)
    }
}

} // verus!
