//! Content digests and the file names derived from them.

use crate::text::{decimal, decimal_text};
use std::collections::hash_map::DefaultHasher;
use std::hash::Hasher;
use vstd::prelude::*;
use vstd::std_specs::hash::DefaultHasherAdditionalSpecFns;
use vstd::string::StringExecFns;

verus! {

/// The digest of `content`: what the default hasher yields after one write of
/// all the bytes.
pub open spec fn content_digest(content: Seq<u8>) -> u64 {
    DefaultHasher::spec_finish(seq![content])
}

/// Hashes `content` to 64 bits. Equal content gives an equal digest.
pub fn calculate_hash(content: &[u8]) -> (digest: u64)
    ensures
        digest == content_digest(content@),
{
    let mut state = DefaultHasher::new();
    state.write(content);
    state.finish()
}

/// The name of the file that holds `content`: the digest of the content in
/// decimal, then the extension, which brings its own dot.
pub open spec fn hashed_name(content: Seq<u8>, extension: Seq<char>) -> Seq<char> {
    decimal(content_digest(content) as nat) + extension
}

/// Names a file after its content. Equal content gives an equal name.
pub fn name_file(content: &[u8], extension: &str) -> (name: String)
    ensures
        name@ == hashed_name(content@, extension@),
{
    let mut name = decimal_text(calculate_hash(content));
    name.append(extension);
    name
}

} // verus!
