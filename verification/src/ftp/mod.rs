//! The FTP commands and replies that announce a data channel, and the port
//! that each of them names.

use vstd::prelude::*;

verus! {

/// Why a line is not the command or reply that a parser looks for.
#[derive(Debug, Clone, Copy, PartialEq, Eq, Structural)]
pub enum FtpParseError {
    /// The input ends where more of it could still make it match.
    Incomplete,
    /// The input does not match.
    Error,
}

/// Whether `chr` is an ASCII decimal digit.
pub open spec fn spec_is_digit(chr: u8) -> bool {
    0x30 <= chr <= 0x39
}

/// Whether `chr` is a blank: space, tab, carriage return or line feed.
pub open spec fn spec_is_space(chr: u8) -> bool {
    chr == 0x20 || chr == 0x09 || chr == 0x0d || chr == 0x0a
}

/// The number of digits at the front of `s`.
pub open spec fn spec_digit_run(s: Seq<u8>) -> nat
    decreases s.len(),
{
    if s.len() > 0 && spec_is_digit(s[0]) {
        1 + spec_digit_run(s.drop_first())
    } else {
        0
    }
}

/// The number of blanks at the front of `s`.
pub open spec fn spec_space_run(s: Seq<u8>) -> nat
    decreases s.len(),
{
    if s.len() > 0 && spec_is_space(s[0]) {
        1 + spec_space_run(s.drop_first())
    } else {
        0
    }
}

/// The number that the digits of `s` write in base ten.
pub open spec fn spec_decimal(s: Seq<u8>) -> nat
    decreases s.len(),
{
    if s.len() == 0 {
        0
    } else {
        10 * spec_decimal(s.drop_last()) + (s.last() - 0x30) as nat
    }
}

/// The offset of the first occurrence of `needle` in `s`.
pub open spec fn spec_find(s: Seq<u8>, needle: Seq<u8>) -> Option<int>
    decreases s.len(),
{
    if needle.len() == 0 {
        Some(0)
    } else if s.len() < needle.len() {
        None
    } else if s.subrange(0, needle.len() as int) == needle {
        Some(0)
    } else {
        match spec_find(s.drop_first(), needle) {
            Some(at) => Some(at + 1),
            None => None,
        }
    }
}

/// A run of digits is the whole front of `s` up to `count` when the first
/// `count` octets are digits and the next one, if any, is not.
pub proof fn lemma_digit_run(s: Seq<u8>, count: nat)
    requires
        count <= s.len(),
        forall|i: int| 0 <= i < count ==> spec_is_digit(#[trigger] s[i]),
        count < s.len() ==> !spec_is_digit(s[count as int]),
    ensures
        spec_digit_run(s) == count,
    decreases count,
{
    if count > 0 {
        let rest = s.drop_first();
        assert forall|i: int| 0 <= i < count - 1 implies spec_is_digit(#[trigger] rest[i]) by {
            assert(rest[i] == s[i + 1]);
        }
        lemma_digit_run(rest, (count - 1) as nat);
    }
}

/// A run of blanks is the whole front of `s` up to `count` when the first
/// `count` octets are blanks and the next one, if any, is not.
pub proof fn lemma_space_run(s: Seq<u8>, count: nat)
    requires
        count <= s.len(),
        forall|i: int| 0 <= i < count ==> spec_is_space(#[trigger] s[i]),
        count < s.len() ==> !spec_is_space(s[count as int]),
    ensures
        spec_space_run(s) == count,
    decreases count,
{
    if count > 0 {
        let rest = s.drop_first();
        assert forall|i: int| 0 <= i < count - 1 implies spec_is_space(#[trigger] rest[i]) by {
            assert(rest[i] == s[i + 1]);
        }
        lemma_space_run(rest, (count - 1) as nat);
    }
}

/// Tells whether `chr` is an ASCII decimal digit, through `nom::is_digit`.
///
/// Trusted: the result is `true` exactly for the octets `0x30` to `0x39`.
#[verifier::external_body]
fn is_digit(chr: u8) -> (r: bool)
    ensures
        r == spec_is_digit(chr),
{
    nom::is_digit(chr)
}

/// Counts the digits at the front of `input`.
fn digit_run(input: &[u8]) -> (count: usize)
    ensures
        count == spec_digit_run(input@),
        count <= input@.len(),
{
    let len = input.len();
    let mut i: usize = 0;
    while i < len && is_digit(input[i])
        invariant
            i <= len,
            len == input@.len(),
            forall|j: int| 0 <= j < i ==> spec_is_digit(#[trigger] input@[j]),
        decreases len - i,
    {
        i += 1;
    }
    proof {
        lemma_digit_run(input@, i as nat);
    }
    i
}

/// Counts the blanks at the front of `input`.
fn space_run(input: &[u8]) -> (count: usize)
    ensures
        count == spec_space_run(input@),
        count <= input@.len(),
{
    let len = input.len();
    let mut i: usize = 0;
    while i < len && (input[i] == 0x20 || input[i] == 0x09 || input[i] == 0x0d || input[i]
        == 0x0a)
        invariant
            i <= len,
            len == input@.len(),
            forall|j: int| 0 <= j < i ==> spec_is_space(#[trigger] input@[j]),
        decreases len - i,
    {
        i += 1;
    }
    proof {
        lemma_space_run(input@, i as nat);
    }
    i
}

/// The input behind `tag`, where the input starts with it.
///
/// An input that differs from `tag` does not match. One that is only the
/// beginning of `tag` is incomplete, or does not match where `complete` tells
/// that no more input will come.
pub open spec fn spec_tag(at: Result<Seq<u8>, FtpParseError>, tag: Seq<u8>, complete: bool)
    -> Result<Seq<u8>, FtpParseError> {
    match at {
        Ok(s) => {
            let common = if s.len() < tag.len() {
                s.len() as int
            } else {
                tag.len() as int
            };
            if s.subrange(0, common) != tag.subrange(0, common) {
                Err(FtpParseError::Error)
            } else if s.len() >= tag.len() {
                Ok(s.skip(tag.len() as int))
            } else if complete {
                Err(FtpParseError::Error)
            } else {
                Err(FtpParseError::Incomplete)
            }
        },
        Err(e) => Err(e),
    }
}

/// The input behind the first occurrence of `needle`; incomplete where
/// `needle` does not occur.
pub open spec fn spec_until(at: Result<Seq<u8>, FtpParseError>, needle: Seq<u8>) -> Result<
    Seq<u8>,
    FtpParseError,
> {
    match at {
        Ok(s) => match spec_find(s, needle) {
            Some(found) => Ok(s.skip(found + needle.len())),
            None => Err(FtpParseError::Incomplete),
        },
        Err(e) => Err(e),
    }
}

/// The number of digits at the front of `s`, which must be at least one and
/// must end before the input does: digits up to the end of the input are
/// incomplete.
pub open spec fn spec_digit(s: Seq<u8>) -> Result<nat, FtpParseError> {
    if spec_digit_run(s) == s.len() {
        Err(FtpParseError::Incomplete)
    } else if spec_digit_run(s) == 0 {
        Err(FtpParseError::Error)
    } else {
        Ok(spec_digit_run(s))
    }
}

/// The input behind one or more digits that end before the input does.
pub open spec fn spec_digits(at: Result<Seq<u8>, FtpParseError>) -> Result<
    Seq<u8>,
    FtpParseError,
> {
    match at {
        Ok(s) => match spec_digit(s) {
            Ok(count) => Ok(s.skip(count as int)),
            Err(e) => Err(e),
        },
        Err(e) => Err(e),
    }
}

/// The input behind the blanks at its front; incomplete where the blanks
/// run to the end of the input.
pub open spec fn spec_blanks(at: Result<Seq<u8>, FtpParseError>) -> Result<
    Seq<u8>,
    FtpParseError,
> {
    match at {
        Ok(s) => if spec_space_run(s) == s.len() {
            Err(FtpParseError::Incomplete)
        } else {
            Ok(s.skip(spec_space_run(s) as int))
        },
        Err(e) => Err(e),
    }
}

/// A decimal number of at most 65535 with blanks allowed on either side,
/// and the input behind it. Neither the digits nor the blanks may run to the
/// end of the input.
pub open spec fn spec_number(at: Result<Seq<u8>, FtpParseError>) -> Result<
    (Seq<u8>, u16),
    FtpParseError,
> {
    match spec_blanks(at) {
        Ok(s) => match spec_blanks(spec_digits(Ok(s))) {
            Ok(rest) => {
                let value = spec_decimal(s.take(spec_digit_run(s) as int));
                if value <= u16::MAX {
                    Ok((rest, value as u16))
                } else {
                    Err(FtpParseError::Error)
                }
            },
            Err(e) => Err(e),
        },
        Err(e) => Err(e),
    }
}

/// `number` where it is at most 255; a larger one does not match.
pub open spec fn spec_small(number: Result<(Seq<u8>, u16), FtpParseError>) -> Result<
    (Seq<u8>, u16),
    FtpParseError,
> {
    match number {
        Ok((rest, value)) => if value <= u8::MAX {
            Ok((rest, value))
        } else {
            Err(FtpParseError::Error)
        },
        Err(e) => Err(e),
    }
}

/// Counts the digits at the front of `input` through `nom::digit`.
///
/// Trusted: the count is that of the leading ASCII digits. Digits that run
/// to the end of the input, an empty input among them, are reported as
/// incomplete, and an input that starts with another octet as an error.
#[verifier::external_body]
fn digit(input: &[u8]) -> (r: Result<usize, FtpParseError>)
    ensures
        match spec_digit(input@) {
            Ok(count) => r == Ok::<usize, FtpParseError>(count as usize),
            Err(e) => r == Err::<usize, FtpParseError>(e),
        },
{
    match nom::digit(input) {
        Ok((_, taken)) => Ok(taken.len()),
        Err(nom::Err::Incomplete(_)) => Err(FtpParseError::Incomplete),
        Err(_) => Err(FtpParseError::Error),
    }
}

/// Proceeds behind `word`, as [`spec_tag`] says.
fn tag<'a>(at: Result<&'a [u8], FtpParseError>, word: &[u8], complete: bool) -> (r: Result<
    &'a [u8],
    FtpParseError,
>)
    ensures
        spec_view(r) == spec_tag(spec_view(at), word@, complete),
{
    let input = match at {
        Ok(input) => input,
        Err(e) => {
            return Err(e);
        },
    };
    let common = if input.len() < word.len() {
        input.len()
    } else {
        word.len()
    };
    let mut i: usize = 0;
    while i < common
        invariant
            i <= common,
            spec_view(at) == Ok::<Seq<u8>, FtpParseError>(input@),
            common == (if input@.len() < word@.len() {
                input@.len()
            } else {
                word@.len()
            }),
            forall|j: int| 0 <= j < i ==> input@[j] == word@[j],
        decreases common - i,
    {
        if input[i] != word[i] {
            assert(input@.subrange(0, common as int)[i as int] != word@.subrange(
                0,
                common as int,
            )[i as int]);
            assert(input@.subrange(0, common as int) != word@.subrange(0, common as int));
            return Err(FtpParseError::Error);
        }
        i += 1;
    }
    assert(input@.subrange(0, common as int) =~= word@.subrange(0, common as int));
    if input.len() >= word.len() {
        let rest = vstd::slice::slice_subrange(input, word.len(), input.len());
        assert(rest@ == input@.skip(word@.len() as int));
        Ok(rest)
    } else if complete {
        Err(FtpParseError::Error)
    } else {
        Err(FtpParseError::Incomplete)
    }
}

/// The octets that a parser has still before it, or the error it met.
pub open spec fn spec_view(at: Result<&[u8], FtpParseError>) -> Result<Seq<u8>, FtpParseError> {
    match at {
        Ok(input) => Ok(input@),
        Err(e) => Err(e),
    }
}

/// A parsed number with the octets behind it, or the error met.
pub open spec fn spec_view_number(at: Result<(&[u8], u16), FtpParseError>) -> Result<
    (Seq<u8>, u16),
    FtpParseError,
> {
    match at {
        Ok((input, value)) => Ok((input@, value)),
        Err(e) => Err(e),
    }
}

/// Whether `needle` stands at the front of `input`.
fn starts_with(input: &[u8], needle: &[u8]) -> (r: bool)
    requires
        needle@.len() <= input@.len(),
    ensures
        r == (input@.subrange(0, needle@.len() as int) == needle@),
{
    let len = needle.len();
    let mut i: usize = 0;
    while i < len
        invariant
            i <= len,
            len == needle@.len(),
            len <= input@.len(),
            forall|j: int| 0 <= j < i ==> input@[j] == needle@[j],
        decreases len - i,
    {
        if input[i] != needle[i] {
            assert(input@.subrange(0, len as int)[i as int] != needle@[i as int]);
            assert(input@.subrange(0, len as int) != needle@);
            return false;
        }
        i += 1;
    }
    assert(input@.subrange(0, len as int) =~= needle@);
    true
}

/// Finds the first occurrence of `needle` in `input`.
fn find(input: &[u8], needle: &[u8]) -> (r: Option<usize>)
    requires
        needle@.len() > 0,
    ensures
        match spec_find(input@, needle@) {
            Some(at) => r == Some(at as usize) && 0 <= at && at + needle@.len() <= input@.len(),
            None => r.is_none(),
        },
{
    let len = input.len();
    let mut i: usize = 0;
    assert(input@.skip(0) =~= input@);
    proof {
        lemma_find_bounds(input@, needle@);
    }
    while len - i >= needle.len()
        invariant
            i <= len,
            len == input@.len(),
            needle@.len() > 0,
            match spec_find(input@.skip(i as int), needle@) {
                Some(at) => spec_find(input@, needle@) == Some(at + i) && 0 <= at && at + i
                    + needle@.len() <= len,
                None => spec_find(input@, needle@).is_none(),
            },
        decreases len - i,
    {
        let rest = vstd::slice::slice_subrange(input, i, len);
        assert(rest@ == input@.skip(i as int));
        if starts_with(rest, needle) {
            return Some(i);
        }
        assert(rest@.drop_first() =~= input@.skip(i + 1));
        proof {
            lemma_find_bounds(input@.skip(i + 1), needle@);
        }
        i += 1;
    }
    None
}

/// An occurrence that is found lies within the input.
pub proof fn lemma_find_bounds(s: Seq<u8>, needle: Seq<u8>)
    ensures
        match spec_find(s, needle) {
            Some(at) => 0 <= at && at + needle.len() <= s.len() || needle.len() == 0,
            None => true,
        },
    decreases s.len(),
{
    if needle.len() > 0 && s.len() >= needle.len() {
        lemma_find_bounds(s.drop_first(), needle);
    }
}

/// Proceeds behind the first occurrence of `needle`, as [`spec_until`] says.
fn until<'a>(at: Result<&'a [u8], FtpParseError>, needle: &[u8]) -> (r: Result<
    &'a [u8],
    FtpParseError,
>)
    requires
        needle@.len() > 0,
    ensures
        spec_view(r) == spec_until(spec_view(at), needle@),
{
    let input = match at {
        Ok(input) => input,
        Err(e) => {
            return Err(e);
        },
    };
    let len = input.len();
    match find(input, needle) {
        Some(found) => {
            let rest = vstd::slice::slice_subrange(input, found + needle.len(), input.len());
            assert(rest@ == input@.skip(found + needle@.len()));
            Ok(rest)
        },
        None => Err(FtpParseError::Incomplete),
    }
}

/// Proceeds behind a run of digits, as [`spec_digits`] says.
fn digits<'a>(at: Result<&'a [u8], FtpParseError>) -> (r: Result<&'a [u8], FtpParseError>)
    ensures
        spec_view(r) == spec_digits(spec_view(at)),
{
    let input = match at {
        Ok(input) => input,
        Err(e) => {
            return Err(e);
        },
    };
    let len = input.len();
    proof {
        lemma_run_bounds(input@);
    }
    match digit(input) {
        Ok(count) => {
            let rest = vstd::slice::slice_subrange(input, count, input.len());
            assert(rest@ == input@.skip(count as int));
            Ok(rest)
        },
        Err(e) => Err(e),
    }
}

/// Runs of digits and of blanks are no longer than the input.
pub proof fn lemma_run_bounds(s: Seq<u8>)
    ensures
        spec_digit_run(s) <= s.len(),
        spec_space_run(s) <= s.len(),
    decreases s.len(),
{
    if s.len() > 0 {
        lemma_run_bounds(s.drop_first());
    }
}

/// Proceeds behind the blanks at the front, as [`spec_blanks`] says.
fn blanks<'a>(at: Result<&'a [u8], FtpParseError>) -> (r: Result<&'a [u8], FtpParseError>)
    ensures
        spec_view(r) == spec_blanks(spec_view(at)),
{
    let input = match at {
        Ok(input) => input,
        Err(e) => {
            return Err(e);
        },
    };
    let count = space_run(input);
    if count == input.len() {
        Err(FtpParseError::Incomplete)
    } else {
        let rest = vstd::slice::slice_subrange(input, count, input.len());
        assert(rest@ == input@.skip(count as int));
        Ok(rest)
    }
}

/// What is reported for a number too large for sixteen bits.
pub const OVER_U16: u32 = 65536;

/// The value that `s` writes in base ten, held at [`OVER_U16`].
pub open spec fn spec_decimal_capped(s: Seq<u8>) -> nat {
    if spec_decimal(s) < OVER_U16 {
        spec_decimal(s)
    } else {
        OVER_U16 as nat
    }
}

/// Reads the first `count` octets of `input`, all of them digits, as a
/// number in base ten, held at [`OVER_U16`].
fn decimal(input: &[u8], count: usize) -> (value: u32)
    requires
        count <= input@.len(),
        forall|i: int| 0 <= i < count ==> spec_is_digit(#[trigger] input@[i]),
    ensures
        value == spec_decimal_capped(input@.take(count as int)),
{
    let mut value: u32 = 0;
    let mut i: usize = 0;
    assert(input@.take(0) =~= Seq::empty());
    while i < count
        invariant
            i <= count <= input@.len(),
            forall|j: int| 0 <= j < count ==> spec_is_digit(#[trigger] input@[j]),
            value == spec_decimal_capped(input@.take(i as int)),
        decreases count - i,
    {
        let ghost next = input@.take(i + 1);
        assert(next.drop_last() =~= input@.take(i as int));
        assert(next.last() == input@[i as int]);
        let d: u32 = (input[i] - 0x30) as u32;
        if value < OVER_U16 {
            value = value * 10 + d;
            if value > OVER_U16 {
                value = OVER_U16;
            }
        }
        i += 1;
    }
    value
}

/// The octets counted by a run of digits are digits.
pub proof fn lemma_digit_run_holds_digits(s: Seq<u8>)
    ensures
        forall|i: int| 0 <= i < spec_digit_run(s) ==> spec_is_digit(#[trigger] s[i]),
    decreases s.len(),
{
    if s.len() > 0 && spec_is_digit(s[0]) {
        let rest = s.drop_first();
        lemma_digit_run_holds_digits(rest);
        lemma_run_bounds(s);
        assert forall|i: int| 0 <= i < spec_digit_run(s) implies spec_is_digit(
            #[trigger] s[i],
        ) by {
            if i > 0 {
                assert(s[i] == rest[i - 1]);
            }
        }
    }
}

/// Reads a number with blanks allowed around it, as [`spec_number`] says.
fn getu16<'a>(at: Result<&'a [u8], FtpParseError>) -> (r: Result<(&'a [u8], u16), FtpParseError>)
    ensures
        spec_view_number(r) == spec_number(spec_view(at)),
{
    let input = match blanks(at) {
        Ok(input) => input,
        Err(e) => {
            return Err(e);
        },
    };
    let rest = match blanks(digits(Ok(input))) {
        Ok(rest) => rest,
        Err(e) => {
            return Err(e);
        },
    };
    let count = digit_run(input);
    proof {
        lemma_digit_run_holds_digits(input@);
    }
    let value = decimal(input, count);
    if value < OVER_U16 {
        Ok((rest, value as u16))
    } else {
        Err(FtpParseError::Error)
    }
}

/// Lets a number pass that is at most 255, as [`spec_small`] says.
fn small<'a>(number: Result<(&'a [u8], u16), FtpParseError>) -> (r: Result<
    (&'a [u8], u16),
    FtpParseError,
>)
    ensures
        spec_view_number(r) == spec_small(spec_view_number(number)),
{
    match number {
        Ok((rest, value)) => if value <= 255 {
            Ok((rest, value))
        } else {
            Err(FtpParseError::Error)
        },
        Err(e) => Err(e),
    }
}

/// The input behind all the blanks at its front, where no more input will
/// come.
pub open spec fn spec_all_blanks(at: Result<Seq<u8>, FtpParseError>) -> Result<
    Seq<u8>,
    FtpParseError,
> {
    match at {
        Ok(s) => Ok(s.skip(spec_space_run(s) as int)),
        Err(e) => Err(e),
    }
}

/// The input behind one or more digits, where no more input will come.
pub open spec fn spec_all_digits(at: Result<Seq<u8>, FtpParseError>) -> Result<
    Seq<u8>,
    FtpParseError,
> {
    match at {
        Ok(s) => if spec_digit_run(s) == 0 {
            Err(FtpParseError::Error)
        } else {
            Ok(s.skip(spec_digit_run(s) as int))
        },
        Err(e) => Err(e),
    }
}

/// A decimal number of at most 65535 at the front of the input, and the
/// input behind it, where no more input will come.
pub open spec fn spec_plain_number(at: Result<Seq<u8>, FtpParseError>) -> Result<
    (Seq<u8>, u16),
    FtpParseError,
> {
    match at {
        Ok(s) => {
            let count = spec_digit_run(s) as int;
            if count == 0 || spec_decimal(s.take(count)) > u16::MAX {
                Err(FtpParseError::Error)
            } else {
                Ok((s.skip(count), spec_decimal(s.take(count)) as u16))
            }
        },
        Err(e) => Err(e),
    }
}

/// Proceeds behind the blanks at the front, as [`spec_all_blanks`] says.
fn all_blanks<'a>(at: Result<&'a [u8], FtpParseError>) -> (r: Result<&'a [u8], FtpParseError>)
    ensures
        spec_view(r) == spec_all_blanks(spec_view(at)),
{
    match at {
        Ok(input) => {
            let count = space_run(input);
            let rest = vstd::slice::slice_subrange(input, count, input.len());
            assert(rest@ == input@.skip(count as int));
            Ok(rest)
        },
        Err(e) => Err(e),
    }
}

/// Proceeds behind a run of digits, as [`spec_all_digits`] says.
fn all_digits<'a>(at: Result<&'a [u8], FtpParseError>) -> (r: Result<&'a [u8], FtpParseError>)
    ensures
        spec_view(r) == spec_all_digits(spec_view(at)),
{
    match at {
        Ok(input) => {
            let count = digit_run(input);
            if count == 0 {
                Err(FtpParseError::Error)
            } else {
                let rest = vstd::slice::slice_subrange(input, count, input.len());
                assert(rest@ == input@.skip(count as int));
                Ok(rest)
            }
        },
        Err(e) => Err(e),
    }
}

/// Reads a number without blanks, as [`spec_plain_number`] says.
fn parse_u16<'a>(at: Result<&'a [u8], FtpParseError>) -> (r: Result<
    (&'a [u8], u16),
    FtpParseError,
>)
    ensures
        spec_view_number(r) == spec_plain_number(spec_view(at)),
{
    match at {
        Ok(input) => {
            let count = digit_run(input);
            proof {
                lemma_digit_run_holds_digits(input@);
            }
            let value = decimal(input, count);
            if count == 0 || value >= OVER_U16 {
                Err(FtpParseError::Error)
            } else {
                let rest = vstd::slice::slice_subrange(input, count, input.len());
                assert(rest@ == input@.skip(count as int));
                Ok((rest, value as u16))
            }
        },
        Err(e) => Err(e),
    }
}

/// What is left of a parsed number's input, or the error met.
pub open spec fn spec_rest(number: Result<(Seq<u8>, u16), FtpParseError>) -> Result<
    Seq<u8>,
    FtpParseError,
> {
    match number {
        Ok((rest, _)) => Ok(rest),
        Err(e) => Err(e),
    }
}

/// The port that two octets name, the high one first.
pub open spec fn spec_port_of(
    at: Result<Seq<u8>, FtpParseError>,
    high: Result<(Seq<u8>, u16), FtpParseError>,
    low: Result<(Seq<u8>, u16), FtpParseError>,
) -> Result<(Seq<u8>, u16), FtpParseError> {
    match at {
        Ok(rest) => match (high, low) {
            (Ok((_, part1)), Ok((_, part2))) => Ok((rest, (part1 * 256 + part2) as u16)),
            (Err(e), _) => Err(e),
            (_, Err(e)) => Err(e),
        },
        Err(e) => Err(e),
    }
}

/// The port that a parsed number names.
pub open spec fn spec_port_at(
    at: Result<Seq<u8>, FtpParseError>,
    port: Result<(Seq<u8>, u16), FtpParseError>,
) -> Result<(Seq<u8>, u16), FtpParseError> {
    match at {
        Ok(rest) => match port {
            Ok((_, value)) => Ok((rest, value)),
            Err(e) => Err(e),
        },
        Err(e) => Err(e),
    }
}

/// The first of two ways to go on that matches: the second is tried only
/// where the first does not match; where the first is incomplete so is the
/// choice.
pub open spec fn spec_either(
    first: Result<Seq<u8>, FtpParseError>,
    second: Result<Seq<u8>, FtpParseError>,
) -> Result<Seq<u8>, FtpParseError> {
    match first {
        Err(FtpParseError::Error) => second,
        _ => first,
    }
}

/// The ASCII text `PORT`.
pub open spec fn spec_word_port() -> Seq<u8> {
    seq![0x50u8, 0x4f, 0x52, 0x54]
}

/// The ASCII text `EPRT`.
pub open spec fn spec_word_eprt() -> Seq<u8> {
    seq![0x45u8, 0x50, 0x52, 0x54]
}

/// The ASCII text `227`.
pub open spec fn spec_word_227() -> Seq<u8> {
    seq![0x32u8, 0x32, 0x37]
}

/// The ASCII text `229`.
pub open spec fn spec_word_229() -> Seq<u8> {
    seq![0x32u8, 0x32, 0x39]
}

/// What `PORT a,b,c,d,p1,p2` names: the port `p1 * 256 + p2` and the input
/// behind the command.
///
/// The line is taken as whole. The word `PORT` may be followed by blanks;
/// `a` to `d` are runs of digits of any value, `p1` and `p2` numbers of at
/// most 255, all six parted by commas.
pub open spec fn spec_active_port(s: Seq<u8>) -> Result<(Seq<u8>, u16), FtpParseError> {
    let comma = seq![0x2cu8];
    let at = spec_tag(Ok(s), spec_word_port(), true);
    let at = spec_tag(spec_all_blanks(spec_all_digits(spec_all_blanks(at))), comma, true);
    let at = spec_tag(spec_all_digits(at), comma, true);
    let at = spec_tag(spec_all_digits(at), comma, true);
    let at = spec_tag(spec_all_digits(at), comma, true);
    let part1 = spec_small(spec_plain_number(at));
    let part2 = spec_small(spec_plain_number(spec_tag(spec_rest(part1), comma, true)));
    spec_port_of(spec_rest(part2), part1, part2)
}

/// What `227 ... (a,b,c,d,p1,p2)` names: the port `p1 * 256 + p2` and the
/// input behind the reply.
///
/// The reply starts with `227`; what stands between it and the first `(` is
/// passed over. `a` to `d` are runs of digits of any value, `p1` and `p2`
/// numbers of at most 255 with blanks allowed around them, all six parted by
/// commas, and `)` closes the list, with or without a dot behind it. More
/// input may follow, so a reply that ends where something is still open is
/// incomplete.
pub open spec fn spec_pasv_response(s: Seq<u8>) -> Result<(Seq<u8>, u16), FtpParseError> {
    let comma = seq![0x2cu8];
    let at = spec_until(spec_tag(Ok(s), spec_word_227(), false), seq![0x28u8]);
    let at = spec_tag(spec_digits(at), comma, false);
    let at = spec_tag(spec_digits(at), comma, false);
    let at = spec_tag(spec_digits(at), comma, false);
    let at = spec_tag(spec_digits(at), comma, false);
    let part1 = spec_small(spec_number(at));
    let part2 = spec_small(spec_number(spec_tag(spec_rest(part1), comma, false)));
    let end = spec_either(
        spec_tag(spec_rest(part2), seq![0x29u8, 0x2e], false),
        spec_tag(spec_rest(part2), seq![0x29u8], false),
    );
    spec_port_of(end, part1, part2)
}

/// What `229 ... (|||port|)` names: the port and the input behind the
/// reply.
///
/// The reply starts with `229`; what stands between it and the first `|||`
/// is passed over. The port is a number of at most 65535 with blanks allowed
/// around it, and `|)` closes it, with or without a dot behind it.
pub open spec fn spec_epsv_response(s: Seq<u8>) -> Result<(Seq<u8>, u16), FtpParseError> {
    let at = spec_until(spec_tag(Ok(s), spec_word_229(), false), seq![0x7cu8, 0x7c, 0x7c]);
    let port = spec_number(at);
    let end = spec_either(
        spec_tag(spec_rest(port), seq![0x7cu8, 0x29, 0x2e], false),
        spec_tag(spec_rest(port), seq![0x7cu8, 0x29], false),
    );
    spec_port_at(end, port)
}

/// What `EPRT |proto|addr|port|` names: the port and the input behind the
/// command.
///
/// The command starts with `EPRT`; the port stands behind the third `|`,
/// a number of at most 65535 with blanks allowed around it, and a fourth
/// `|` closes it.
pub open spec fn spec_active_eprt(s: Seq<u8>) -> Result<(Seq<u8>, u16), FtpParseError> {
    let bar = seq![0x7cu8];
    let at = spec_tag(Ok(s), spec_word_eprt(), false);
    let at = spec_until(spec_until(spec_until(at, bar), bar), bar);
    let port = spec_number(at);
    spec_port_at(spec_tag(spec_rest(port), bar, false), port)
}

/// Parses `PORT a,b,c,d,p1,p2`, taken as a whole line, and returns the
/// input behind it with the port `p1 * 256 + p2`.
pub fn ftp_active_port(input: &[u8]) -> (r: Result<(&[u8], u16), FtpParseError>)
    ensures
        spec_view_number(r) == spec_active_port(input@),
{
    let word: [u8; 4] = [0x50, 0x4f, 0x52, 0x54];
    let comma: [u8; 1] = [0x2c];
    assert(word@ =~= spec_word_port());
    assert(comma@ =~= seq![0x2cu8]);
    let at = tag(Ok(input), word.as_slice(), true);
    let at = tag(all_blanks(all_digits(all_blanks(at))), comma.as_slice(), true);
    let at = tag(all_digits(at), comma.as_slice(), true);
    let at = tag(all_digits(at), comma.as_slice(), true);
    let at = tag(all_digits(at), comma.as_slice(), true);
    let (rest, part1) = match small(parse_u16(at)) {
        Ok(found) => found,
        Err(e) => {
            return Err(e);
        },
    };
    match small(parse_u16(tag(Ok(rest), comma.as_slice(), true))) {
        Ok((rest, part2)) => Ok((rest, part1 * 256 + part2)),
        Err(e) => Err(e),
    }
}

/// Parses the reply `227 ... (a,b,c,d,p1,p2)` and returns the input behind
/// it with the port `p1 * 256 + p2`.
pub fn ftp_pasv_response(input: &[u8]) -> (r: Result<(&[u8], u16), FtpParseError>)
    ensures
        spec_view_number(r) == spec_pasv_response(input@),
{
    let word: [u8; 3] = [0x32, 0x32, 0x37];
    let open: [u8; 1] = [0x28];
    let comma: [u8; 1] = [0x2c];
    let close_dot: [u8; 2] = [0x29, 0x2e];
    let close: [u8; 1] = [0x29];
    assert(word@ =~= spec_word_227());
    assert(open@ =~= seq![0x28u8]);
    assert(comma@ =~= seq![0x2cu8]);
    assert(close_dot@ =~= seq![0x29u8, 0x2e]);
    assert(close@ =~= seq![0x29u8]);
    let at = until(tag(Ok(input), word.as_slice(), false), open.as_slice());
    let at = tag(digits(at), comma.as_slice(), false);
    let at = tag(digits(at), comma.as_slice(), false);
    let at = tag(digits(at), comma.as_slice(), false);
    let at = tag(digits(at), comma.as_slice(), false);
    let (rest, part1) = match small(getu16(at)) {
        Ok(found) => found,
        Err(e) => {
            return Err(e);
        },
    };
    let (rest, part2) = match small(getu16(tag(Ok(rest), comma.as_slice(), false))) {
        Ok(found) => found,
        Err(e) => {
            return Err(e);
        },
    };
    let end = match tag(Ok(rest), close_dot.as_slice(), false) {
        Err(FtpParseError::Error) => tag(Ok(rest), close.as_slice(), false),
        other => other,
    };
    match end {
        Ok(rest) => Ok((rest, part1 * 256 + part2)),
        Err(e) => Err(e),
    }
}

/// Parses the reply `229 ... (|||port|)` and returns the input behind it
/// with the port.
pub fn ftp_epsv_response(input: &[u8]) -> (r: Result<(&[u8], u16), FtpParseError>)
    ensures
        spec_view_number(r) == spec_epsv_response(input@),
{
    let word: [u8; 3] = [0x32, 0x32, 0x39];
    let bars: [u8; 3] = [0x7c, 0x7c, 0x7c];
    let close_dot: [u8; 3] = [0x7c, 0x29, 0x2e];
    let close: [u8; 2] = [0x7c, 0x29];
    assert(word@ =~= spec_word_229());
    assert(bars@ =~= seq![0x7cu8, 0x7c, 0x7c]);
    assert(close_dot@ =~= seq![0x7cu8, 0x29, 0x2e]);
    assert(close@ =~= seq![0x7cu8, 0x29]);
    let at = until(tag(Ok(input), word.as_slice(), false), bars.as_slice());
    let (rest, port) = match getu16(at) {
        Ok(found) => found,
        Err(e) => {
            return Err(e);
        },
    };
    let end = match tag(Ok(rest), close_dot.as_slice(), false) {
        Err(FtpParseError::Error) => tag(Ok(rest), close.as_slice(), false),
        other => other,
    };
    match end {
        Ok(rest) => Ok((rest, port)),
        Err(e) => Err(e),
    }
}

/// Parses `EPRT |proto|addr|port|` and returns the input behind it with the
/// port.
pub fn ftp_active_eprt(input: &[u8]) -> (r: Result<(&[u8], u16), FtpParseError>)
    ensures
        spec_view_number(r) == spec_active_eprt(input@),
{
    let word: [u8; 4] = [0x45, 0x50, 0x52, 0x54];
    let bar: [u8; 1] = [0x7c];
    assert(word@ =~= spec_word_eprt());
    assert(bar@ =~= seq![0x7cu8]);
    let at = tag(Ok(input), word.as_slice(), false);
    let at = until(until(until(at, bar.as_slice()), bar.as_slice()), bar.as_slice());
    let (rest, port) = match getu16(at) {
        Ok(found) => found,
        Err(e) => {
            return Err(e);
        },
    };
    match tag(Ok(rest), bar.as_slice(), false) {
        Ok(rest) => Ok((rest, port)),
        Err(e) => Err(e),
    }
}

/// The port that a parser found, zero where it found none.
pub open spec fn spec_port_or_zero(found: Result<(Seq<u8>, u16), FtpParseError>) -> u16 {
    match found {
        Ok((_, port)) => port,
        Err(_) => 0,
    }
}

/// The port that the command `PORT` in `input` names, zero where `input` is
/// no such command.
pub fn rs_ftp_active_port(input: &[u8]) -> (port: u16)
    ensures
        port == spec_port_or_zero(spec_active_port(input@)),
{
    match ftp_active_port(input) {
        Ok((_, port)) => port,
        Err(_) => 0,
    }
}

/// The port that the reply `227` in `input` names, zero where `input` is
/// no such reply.
pub fn rs_ftp_pasv_response(input: &[u8]) -> (port: u16)
    ensures
        port == spec_port_or_zero(spec_pasv_response(input@)),
{
    match ftp_pasv_response(input) {
        Ok((_, port)) => port,
        Err(_) => 0,
    }
}

/// The port that the command `EPRT` in `input` names, zero where `input` is
/// no such command.
pub fn rs_ftp_active_eprt(input: &[u8]) -> (port: u16)
    ensures
        port == spec_port_or_zero(spec_active_eprt(input@)),
{
    match ftp_active_eprt(input) {
        Ok((_, port)) => port,
        Err(_) => 0,
    }
}

/// The port that the reply `229` in `input` names, zero where `input` is
/// no such reply.
pub fn rs_ftp_epsv_response(input: &[u8]) -> (port: u16)
    ensures
        port == spec_port_or_zero(spec_epsv_response(input@)),
{
    match ftp_epsv_response(input) {
        Ok((_, port)) => port,
        Err(_) => 0,
    }
}

/// Empty input names no port: each of the four parsers fails on it, and
/// each adapter gives zero.
pub proof fn lemma_empty_input_names_no_port()
    ensures
        spec_active_port(Seq::empty()) == Err::<(Seq<u8>, u16), FtpParseError>(
            FtpParseError::Error,
        ),
        spec_pasv_response(Seq::empty()) == Err::<(Seq<u8>, u16), FtpParseError>(
            FtpParseError::Incomplete,
        ),
        spec_epsv_response(Seq::empty()) == Err::<(Seq<u8>, u16), FtpParseError>(
            FtpParseError::Incomplete,
        ),
        spec_active_eprt(Seq::empty()) == Err::<(Seq<u8>, u16), FtpParseError>(
            FtpParseError::Incomplete,
        ),
        spec_port_or_zero(spec_active_port(Seq::empty())) == 0,
        spec_port_or_zero(spec_pasv_response(Seq::empty())) == 0,
        spec_port_or_zero(spec_epsv_response(Seq::empty())) == 0,
        spec_port_or_zero(spec_active_eprt(Seq::empty())) == 0,
{
    let none = Seq::<u8>::empty();
    assert(none.subrange(0, 0) =~= spec_word_port().subrange(0, 0));
    assert(none.subrange(0, 0) =~= spec_word_227().subrange(0, 0));
    assert(none.subrange(0, 0) =~= spec_word_229().subrange(0, 0));
    assert(none.subrange(0, 0) =~= spec_word_eprt().subrange(0, 0));
    assert(spec_tag(Ok(none), spec_word_port(), true) == Err::<Seq<u8>, FtpParseError>(
        FtpParseError::Error,
    ));
    assert(spec_tag(Ok(none), spec_word_227(), false) == Err::<Seq<u8>, FtpParseError>(
        FtpParseError::Incomplete,
    ));
    assert(spec_tag(Ok(none), spec_word_229(), false) == Err::<Seq<u8>, FtpParseError>(
        FtpParseError::Incomplete,
    ));
    assert(spec_tag(Ok(none), spec_word_eprt(), false) == Err::<Seq<u8>, FtpParseError>(
        FtpParseError::Incomplete,
    ));
}

} // verus!
