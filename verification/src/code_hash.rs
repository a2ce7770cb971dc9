//! Hash of the validation code that a parachain block was built with.

use cumulus_primitives_core::relay_chain::ValidationCode;
use vstd::prelude::*;

verus! {

/// The hash under which the relay chain knows the validation code `code`.
pub uninterp spec fn validation_code_hash_of(code: Seq<u8>) -> Seq<u8>;

/// The validation code hash of `code`.
///
/// Calls `cumulus_primitives_core::relay_chain::ValidationCode::hash`, the blake2-256 hash of the
/// code's bytes. The contract names the result and claims of it that it is 32 bytes long; how the
/// bytes of the hash follow from the bytes of the code is not spelled out.
#[verifier::external_body]
fn validation_code_hash(code: Vec<u8>) -> (hash: Vec<u8>)
    ensures
        hash@ == validation_code_hash_of(code@),
        hash@.len() == 32,
{
    ValidationCode::from(code).hash().as_ref().to_vec()
}

/// The code hash that a collator announces for a block, given the outcome of reading the
/// runtime code at that block: the hash of the code, or nothing where the code could not be read.
pub fn code_hash_provider<E>(code: Result<Vec<u8>, E>) -> (hash: Option<Vec<u8>>)
    ensures
        match code {
            Ok(bytes) => hash matches Some(h) && h@ == validation_code_hash_of(bytes@) && h@.len()
                == 32,
            Err(_) => hash is None,
        },
{
    match code {
        Ok(bytes) => Some(validation_code_hash(bytes)),
        Err(_) => None,
    }
}

/// A block has a code hash if and only if its code could be read; blocks with the same code have
/// the same one.
pub proof fn lemma_code_hash_by_code<E>(
    first_code: Result<Vec<u8>, E>,
    second_code: Result<Vec<u8>, E>,
    first: Option<Vec<u8>>,
    second: Option<Vec<u8>>,
)
    requires
        call_ensures(code_hash_provider::<E>, (first_code,), first),
        call_ensures(code_hash_provider::<E>, (second_code,), second),
    ensures
        first is Some <==> first_code is Ok,
        first matches Some(hash) ==> hash@.len() == 32 && hash@ == validation_code_hash_of(
            first_code->Ok_0@,
        ),
        (first_code matches Ok(one) && second_code matches Ok(other) && one@ == other@)
            ==> first->0@ == second->0@,
{
}

} // verus!
