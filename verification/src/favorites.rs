//! The per-user "favorite number and color" record and its two instruction
//! handlers: setting the record, and an `Option`-driven partial update.
//!
//! On chain the record sits in a derived account; here it is plain data, and
//! the handlers compute the record that the runtime would store.

use vstd::prelude::*;

verus! {

/// A user's stored favorites.
#[derive(Debug)]
pub struct Favorites {
    pub number: u64,
    pub color: String,
}

/// What an instruction handler can refuse.
#[derive(Clone, Copy, PartialEq, Eq, Structural, Debug)]
pub enum ErrorCode {
    CustomError,
    NothingToUpdate,
}

/// Set the record outright: both fields are provided.
pub fn set_favorites(number: u64, color: String) -> (f: Favorites)
    ensures
        f.number == number,
        f.color@ == color@,
{
    Favorites { number, color }
}

/// Update the record partially: a provided field replaces the stored one, an
/// omitted field keeps it. Refused exactly when nothing is provided.
pub fn update_favorites(current: &Favorites, number: Option<u64>, color: Option<String>) -> (r:
    Result<Favorites, ErrorCode>)
    ensures
        r is Err <==> number is None && color is None,
        r matches Err(e) ==> e == ErrorCode::NothingToUpdate,
        r matches Ok(f) ==> {
            &&& f.number == (match number {
                Some(n) => n,
                None => current.number,
            })
            &&& f.color@ == (match color {
                Some(c) => c@,
                None => current.color@,
            })
        },
{
    if number.is_none() && color.is_none() {
        return Err(ErrorCode::NothingToUpdate);
    }
    let new_number = match number {
        Some(n) => n,
        None => current.number,
    };
    let new_color = match color {
        Some(c) => c,
        None => current.color.clone(),
    };
    Ok(Favorites { number: new_number, color: new_color })
}

} // verus!
