//! Keys from mnemonic phrases: what is asked of a phrase before a key is
//! derived from it.

use crate::error::Error;
use vstd::prelude::*;

verus! {

/// The account that is derived where none is asked for.
pub const DEFAULT_ACCOUNT_INDEX: u32 = 0;

/// The words of a freshly generated phrase.
pub const GENERATED_WORDS: usize = 24;

/// A phrase has to have 12 or 24 words.
pub fn check_word_count(words: usize) -> (r: Result<(), Error>)
    ensures
        r == (if words == 12 || words == 24 {
            Ok::<(), Error>(())
        } else {
            Err::<(), Error>(Error::MnemonicWordCount { words: words as u64 })
        }),
{
    if words == 12 || words == 24 {
        Ok(())
    } else {
        Err(Error::MnemonicWordCount { words: words as u64 })
    }
}

} // verus!
