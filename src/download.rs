use vstd::prelude::*;

use crate::felt::Felt;
use crate::model::ContractClassData;

verus! {

/// Why the download of one class failed.
#[derive(Clone, Debug)]
pub struct ClassDownloadError {
    pub class_hash: Felt,
    pub message: String,
}

/// The outcome of one class download.
pub type ClassDownload = Result<ContractClassData, ClassDownloadError>;

/// Whether the first `n` downloads all succeeded.
pub open spec fn all_ok_upto(rs: Seq<ClassDownload>, n: int) -> bool {
    forall|i: int| 0 <= i < n ==> (#[trigger] rs[i]) is Ok
}

/// What a batch of downloads, in the order they finished, yields: every class
/// when all succeeded, else the first failure.
pub open spec fn batch_of(rs: Seq<ClassDownload>) -> Result<Seq<ContractClassData>, ClassDownloadError> {
    if all_ok_upto(rs, rs.len() as int) {
        Ok(rs.map_values(|r: ClassDownload| r->Ok_0))
    } else {
        let i = choose|i: int| 0 <= i < rs.len() && rs[i] is Err && all_ok_upto(rs, i);
        Err(rs[i]->Err_0)
    }
}

/// Gathers the downloads of one block, in the order they finished, into its
/// class batch. The batch is all or nothing: the first failure is returned and
/// none of the classes.
pub fn collect_class_downloads(downloads: Vec<ClassDownload>) -> (r: Result<Vec<ContractClassData>, ClassDownloadError>)
    ensures
        r is Ok <==> all_ok_upto(downloads@, downloads@.len() as int),
        r matches Ok(v) ==> batch_of(downloads@) == Ok::<Seq<ContractClassData>, ClassDownloadError>(v@),
        r matches Err(e) ==> batch_of(downloads@) == Err::<Seq<ContractClassData>, ClassDownloadError>(e),
{
    let ghost all = downloads@;
    let n: usize = downloads.len();
    let mut rest = downloads;
    let mut classes: Vec<ContractClassData> = Vec::new();
    let mut k: usize = 0;
    while rest.len() > 0
        invariant
            k + rest@.len() == all.len(),
            all.len() == n,
            all == downloads@,
            rest@ == all.skip(k as int),
            all_ok_upto(all, k as int),
            classes@ == all.take(k as int).map_values(|r: ClassDownload| r->Ok_0),
        decreases rest@.len(),
    {
        let next = rest.remove(0);
        assert(next == all[k as int]);
        match next {
            Ok(c) => {
                classes.push(c);
                k = k + 1;
                assert(rest@ =~= all.skip(k as int));
                assert(classes@ =~= all.take(k as int).map_values(|r: ClassDownload| r->Ok_0));
            },
            Err(e) => {
                proof {
                    assert(all[k as int] is Err);
                    assert(!all_ok_upto(all, all.len() as int));
                    assert(0 <= k < all.len() && all[k as int] is Err && all_ok_upto(all, k as int));
                    let j = choose|j: int| 0 <= j < all.len() && all[j] is Err && all_ok_upto(all, j);
                    if j < k {
                        assert(all[j] is Ok);
                    } else if j > k {
                        assert(all[k as int] is Ok);
                    }
                    assert(e == all[k as int]->Err_0);
                    assert(batch_of(all) == Err::<Seq<ContractClassData>, ClassDownloadError>(e));
                }
                return Err(e);
            },
        }
    }
    assert(all.take(k as int) =~= all);
    Ok(classes)
}

} // verus!
