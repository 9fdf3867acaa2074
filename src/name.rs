use vstd::prelude::*;

use vstd::string::StrSliceExecFns;
use vstd::utf8::encode_utf8;

use crate::error::ContractError;

verus! {

/// Shortest name accepted, in bytes.
pub const MIN_LENGTH: u64 = 3;

/// Longest name accepted, in bytes.
pub const MAX_LENGTH: u64 = 64;

/// The characters a name may hold: ASCII digits, lowercase ASCII letters, `.`, `-` and `_`.
pub open spec fn is_name_char(c: char) -> bool {
    ('0' <= c && c <= '9') || ('a' <= c && c <= 'z') || c == '.' || c == '-' || c == '_'
}

pub open spec fn all_name_chars(s: Seq<char>) -> bool {
    forall|i: int| 0 <= i < s.len() ==> is_name_char(#[trigger] s[i])
}

/// `i` is the position of the first character of `s` that a name may not hold.
pub open spec fn is_first_invalid(s: Seq<char>, i: int) -> bool {
    &&& 0 <= i < s.len()
    &&& !is_name_char(s[i])
    &&& forall|j: int| 0 <= j < i ==> is_name_char(#[trigger] s[j])
}

/// The position of the first character of `s` that a name may not hold, where there is one.
pub open spec fn first_invalid(s: Seq<char>) -> int {
    choose|i: int| is_first_invalid(s, i)
}

/// The length of `name` in bytes of UTF-8, as `str::len` reports it.
pub open spec fn byte_length(name: Seq<char>) -> u64 {
    encode_utf8(name).len() as usize as u64
}

/// The outcome of checking `name`: its byte length first, then its characters in order.
pub open spec fn name_verdict(name: Seq<char>) -> Result<(), ContractError> {
    let length = byte_length(name);
    if length < MIN_LENGTH {
        Err(ContractError::NameTooShort { length, min_length: MIN_LENGTH })
    } else if length > MAX_LENGTH {
        Err(ContractError::NameTooLong { length, max_length: MAX_LENGTH })
    } else if all_name_chars(name) {
        Ok(())
    } else {
        Err(ContractError::InvalidCharacter { c: name[first_invalid(name)] })
    }
}

/// Whether `c` may not appear in a name.
pub fn invalid_char(c: char) -> (r: bool)
    ensures
        r == !is_name_char(c),
{
    let is_valid = ('0' <= c && c <= '9') || ('a' <= c && c <= 'z') || (c == '.' || c == '-'
        || c == '_');
    !is_valid
}

/// Checks that `name` is between `MIN_LENGTH` and `MAX_LENGTH` bytes long and
/// holds only name characters; the first rule broken gives the error.
pub fn validate_name(name: &str) -> (r: Result<(), ContractError>)
    ensures
        r == name_verdict(name@),
{
    let length = name.len() as u64;
    if length < MIN_LENGTH {
        Err(ContractError::NameTooShort { length, min_length: MIN_LENGTH })
    } else if length > MAX_LENGTH {
        Err(ContractError::NameTooLong { length, max_length: MAX_LENGTH })
    } else {
        let n = name.unicode_len();
        let mut i: usize = 0;
        while i < n
            invariant
                n == name@.len(),
                length == name.len() as u64,
                MIN_LENGTH <= length <= MAX_LENGTH,
                0 <= i <= n,
                forall|j: int| 0 <= j < i ==> is_name_char(#[trigger] name@[j]),
            decreases n - i,
        {
            let c = name.get_char(i);
            if invalid_char(c) {
                assert(is_first_invalid(name@, i as int));
                assert(is_first_invalid(name@, first_invalid(name@)));
                proof {
                    let k = first_invalid(name@);
                    if k < i {
                        assert(is_name_char(name@[k]));
                    } else if i < k {
                        assert(is_name_char(name@[i as int]));
                    }
                    assert(k == i);
                    assert(!all_name_chars(name@));
                }
                return Err(ContractError::InvalidCharacter { c });
            }
            i += 1;
        }
        Ok(())
    }
}

} // verus!
