use vstd::prelude::*;
use crate::error::TreasuryError;

verus! {

/// The longest community name, in bytes.
pub const MAX_NAME_LEN: usize = 32;

/// Whether a byte may stand in a community name: an ASCII letter or digit, or
/// one of `_ . ( ) -`.
pub open spec fn name_byte_allowed(c: u8) -> bool {
    ||| (97 <= c && c <= 122)  // a-z
    ||| (65 <= c && c <= 90)  // A-Z
    ||| (48 <= c && c <= 57)  // 0-9
    ||| c == 95  // _
    ||| c == 46  // .
    ||| c == 40  // (
    ||| c == 41  // )
    ||| c == 45  // -
}

/// The outcome of checking a community name: 1 to 32 bytes, each of them
/// allowed.
pub open spec fn name_check(n: Seq<u8>) -> Result<(), TreasuryError> {
    if n.len() < 1 {
        Err(TreasuryError::NameTooShort)
    } else if n.len() > MAX_NAME_LEN {
        Err(TreasuryError::NameTooLong)
    } else if exists|i: int| 0 <= i < n.len() && !name_byte_allowed(#[trigger] n[i]) {
        Err(TreasuryError::NameInvalidCharacters)
    } else {
        Ok(())
    }
}

fn byte_allowed(c: u8) -> (r: bool)
    ensures
        r == name_byte_allowed(c),
{
    let lower = 97 <= c && c <= 122;
    let upper = 65 <= c && c <= 90;
    let digit = 48 <= c && c <= 57;
    let mark = c == 95 || c == 46 || c == 40 || c == 41 || c == 45;
    lower || upper || digit || mark
}

/// Checks that `name` can name a community.
pub fn valid_name(name: &[u8]) -> (r: Result<(), TreasuryError>)
    ensures
        r == name_check(name@),
{
    if name.len() < 1 {
        return Err(TreasuryError::NameTooShort);
    }
    if name.len() > MAX_NAME_LEN {
        return Err(TreasuryError::NameTooLong);
    }
    let mut i: usize = 0;
    while i < name.len()
        invariant
            0 <= i <= name@.len(),
            1 <= name@.len() <= MAX_NAME_LEN,
            forall|j: int| 0 <= j < i ==> name_byte_allowed(#[trigger] name@[j]),
        decreases name@.len() - i,
    {
        if !byte_allowed(name[i]) {
            assert(!name_byte_allowed(name@[i as int]));
            return Err(TreasuryError::NameInvalidCharacters);
        }
        i = i + 1;
    }
    assert(!(exists|j: int| 0 <= j < name@.len() && !name_byte_allowed(#[trigger] name@[j])));
    Ok(())
}

} // verus!
