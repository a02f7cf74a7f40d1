//! Identifiers and secrets drawn at random.

use vstd::prelude::*;

verus! {

/// How many symbols an identifier has.
pub const ID_SIZE: usize = 21;

/// How many symbols a secret has.
pub const SECRET_SIZE: usize = 8;

/// Symbols drawn at random by `nanoid::format`, with the crate's own
/// random source and its URL-safe alphabet, which holds single-byte
/// characters only. The call returns once it has drawn `size` symbols; for
/// no symbols it would not return, and for very many its arithmetic would
/// overflow.
#[verifier::external_body]
fn random_symbols(size: usize) -> (symbols: String)
    requires
        0 < size <= 1024,
    ensures
        symbols@.len() == size,
{
    nanoid::format(nanoid::rngs::default, &nanoid::alphabet::SAFE, size)
}

/// A fresh identifier.
pub(crate) fn fresh_id() -> (id: String)
    ensures
        id@.len() == ID_SIZE,
{
    random_symbols(ID_SIZE)
}

/// A fresh secret.
pub(crate) fn fresh_secret() -> (secret: String)
    ensures
        secret@.len() == SECRET_SIZE,
{
    random_symbols(SECRET_SIZE)
}

} // verus!
