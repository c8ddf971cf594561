//! Decoder configuration: what to do with a string field value that is
//! longer than the field's capacity.

use vstd::prelude::*;
use crate::common_types::{ModelNodeParseError, ParseErrorView};
use crate::text::{truncated_to, BoundedString};

verus! {

/// The outcome of copying `s` into a field of `cap` bytes: under the
/// truncate policy the longest prefix of whole characters that fits;
/// under the reject policy the value itself, or `StringTooLong` where it
/// does not fit.
pub open spec fn copied_string(s: Seq<u8>, cap: int, truncate: bool) -> Result<
    Seq<u8>,
    ParseErrorView,
> {
    if truncate {
        Ok(truncated_to(s, cap))
    } else if s.len() <= cap {
        Ok(s)
    } else {
        Err(ParseErrorView::StringTooLong)
    }
}

/// Configuration of the decoders.
pub struct ParserOptions {
    /// Truncate strings if the length is too long to hold; reject them
    /// (aborting the decode with `StringTooLong`) otherwise.
    truncate_too_long_string: bool,
}

impl ParserOptions {
    /// Whether over-long string field values are truncated rather than
    /// rejected.
    pub closed spec fn spec_truncate(&self) -> bool {
        self.truncate_too_long_string
    }

    /// Options with the given overflow policy: truncate over-long string
    /// values when `truncate_too_long_string` holds, reject them otherwise.
    pub fn new(truncate_too_long_string: bool) -> (r: Self)
        ensures
            r.spec_truncate() == truncate_too_long_string,
    {
        ParserOptions { truncate_too_long_string }
    }

    /// The overflow policy.
    pub fn truncates(&self) -> (r: bool)
        ensures
            r == self.spec_truncate(),
    {
        self.truncate_too_long_string
    }
}

impl Default for ParserOptions {
    /// Truncate over-long strings.
    fn default() -> (r: Self)
        ensures
            r.spec_truncate(),
    {
        ParserOptions { truncate_too_long_string: true }
    }
}

/// Copy string as long as the storage can hold: the longest prefix of
/// whole characters that fits in `N` bytes.
pub fn copy_string_possible<const N: usize>(s: &[u8]) -> (r: BoundedString<N>)
    ensures
        r@ == truncated_to(s@, N as int),
        r.wf(),
{
    BoundedString::from_bytes_truncate(s)
}

/// Copy a string field value. Under the truncate policy the longest
/// prefix of whole characters that fits is kept and the rest dropped;
/// under the reject policy a value longer than `N` bytes is refused with
/// `StringTooLong`.
pub fn copy_string_option<const N: usize>(s: &[u8], options: &ParserOptions) -> (r: Result<
    BoundedString<N>,
    ModelNodeParseError,
>)
    ensures
        match copied_string(s@, N as int, options.spec_truncate()) {
            Ok(t) => r matches Ok(v) && v@ == t,
            Err(e) => r matches Err(e2) && e2@ == e,
        },
        options.spec_truncate() ==> (r matches Ok(v) && v@ == truncated_to(s@, N as int)),
        !options.spec_truncate() && s@.len() <= N ==> (r matches Ok(v) && v@ == s@),
        !options.spec_truncate() && s@.len() > N ==> (r matches Err(e) && e is StringTooLong),
        r matches Ok(v) ==> v.wf(),
{
    if options.truncates() {
        Ok(BoundedString::from_bytes_truncate(s))
    } else {
        match BoundedString::from_bytes_exact(s) {
            Some(v) => Ok(v),
            None => Err(ModelNodeParseError::StringTooLong),
        }
    }
}

} // verus!
