use vstd::prelude::*;

use crate::download::{batch_of, collect_class_downloads, ClassDownload, ClassDownloadError};
use crate::model::{ContractClassData, StateUpdate};

verus! {

/// A message sent downstream at the end of a block's state update chain.
#[derive(Debug)]
pub enum Dispatch {
    /// The verified state update, for the state sink.
    StateUpdate(StateUpdate),
    /// The block's class batch, for the class sink.
    Classes(Vec<ContractClassData>),
}

/// The messages that end the state update chain of a verified block, in the
/// order they are to be sent: the state update first, then the class batch.
/// When a class download failed, nothing is sent and the first failure is
/// returned.
pub fn chain_dispatches(state_update: StateUpdate, downloads: Vec<ClassDownload>) -> (r: Result<
    Vec<Dispatch>,
    ClassDownloadError,
>)
    ensures
        match batch_of(downloads@) {
            Ok(classes) => r is Ok && r->Ok_0@.len() == 2 && r->Ok_0@[0] == Dispatch::StateUpdate(
                state_update,
            ) && r->Ok_0@[1] is Classes && r->Ok_0@[1]->Classes_0@ == classes,
            Err(e) => r == Err::<Vec<Dispatch>, ClassDownloadError>(e),
        },
{
    match collect_class_downloads(downloads) {
        Ok(classes) => {
            let mut msgs: Vec<Dispatch> = Vec::new();
            msgs.push(Dispatch::StateUpdate(state_update));
            msgs.push(Dispatch::Classes(classes));
            Ok(msgs)
        },
        Err(e) => Err(e),
    }
}

} // verus!
