use vstd::prelude::*;
use crate::tag::{StructTag, TagModel};

verus! {

/// What is known of the chain's head when a query starts. It is read once for
/// a query and goes out again with the answer.
#[derive(PartialEq, Eq, Structural, Clone, Copy, Debug)]
pub struct LedgerInfo {
    pub chain_id: u8,
    pub ledger_version: u64,
    pub ledger_timestamp: u64,
}

impl LedgerInfo {
    pub fn new(chain_id: u8, ledger_version: u64, ledger_timestamp: u64) -> (info: LedgerInfo)
        ensures
            info == (LedgerInfo { chain_id, ledger_version, ledger_timestamp }),
    {
        LedgerInfo { chain_id, ledger_version, ledger_timestamp }
    }

    /// The latest version known.
    pub fn version(&self) -> (version: u64)
        ensures
            version == self.ledger_version,
    {
        self.ledger_version
    }
}

/// One resource of an account: its type and its bytes as they are stored.
#[derive(Debug)]
pub struct Resource {
    pub tag: StructTag,
    pub data: Vec<u8>,
}

/// What a `Resource` stands for.
pub struct ResourceModel {
    pub tag: TagModel,
    pub data: Seq<u8>,
}

impl View for Resource {
    type V = ResourceModel;

    open spec fn view(&self) -> ResourceModel {
        ResourceModel { tag: self.tag@, data: self.data@ }
    }
}

/// What an account holds at one version: its resources and the bytes of its
/// modules, each in the order of the store.
#[derive(Debug)]
pub struct AccountState {
    pub resources: Vec<Resource>,
    pub modules: Vec<Vec<u8>>,
}

/// An answer together with the ledger information its query started from.
#[derive(Debug)]
pub struct Response<T> {
    pub ledger_info: LedgerInfo,
    pub body: T,
}

impl<T> Response<T> {
    /// Puts an answer and the query's ledger information together.
    pub fn new(ledger_info: LedgerInfo, body: T) -> (response: Response<T>)
        ensures
            response.ledger_info == ledger_info,
            response.body == body,
    {
        Response { ledger_info, body }
    }
}

/// Whether some resource among `resources` has the type `tag`.
pub open spec fn holds_type(resources: Seq<Resource>, tag: TagModel) -> bool {
    exists|k: int| 0 <= k < resources.len() && (#[trigger] resources[k]).tag@ == tag
}

/// Whether the resource at `i` has the type `tag` and none before it has.
pub open spec fn is_first_of_type(resources: Seq<Resource>, tag: TagModel, i: int) -> bool {
    &&& 0 <= i < resources.len()
    &&& resources[i].tag@ == tag
    &&& forall|k: int| 0 <= k < i ==> (#[trigger] resources[k]).tag@ != tag
}

/// Whether no two resources among `resources` have the same type.
pub open spec fn distinct_types(resources: Seq<Resource>) -> bool {
    forall|j: int, k: int|
        0 <= j < k < resources.len() ==> (#[trigger] resources[j]).tag@ != (
        #[trigger] resources[k]).tag@
}

impl AccountState {
    /// The place of the first resource whose type is `tag`, compared part by part.
    pub fn position_of(&self, tag: &StructTag) -> (found: Option<usize>)
        ensures
            match found {
                Some(i) => is_first_of_type(self.resources@, tag@, i as int),
                None => !holds_type(self.resources@, tag@),
            },
    {
        let n: usize = self.resources.len();
        let mut i: usize = 0;
        while i < n
            invariant
                n == self.resources@.len(),
                i <= n,
                forall|k: int| 0 <= k < i ==> (#[trigger] self.resources@[k]).tag@ != tag@,
            decreases n - i,
        {
            if self.resources[i].tag.equals(tag) {
                return Some(i);
            }
            i = i + 1;
        }
        None
    }
}

} // verus!
