use vstd::prelude::*;
use vstd::string::StringSliceAdditionalSpecFns;
use crate::address::{address_of_text, Address};
use crate::error::{ErrorModel, Parameter, QueryError};
use crate::event::{handle_result_fits, key_result_fits, reinterpret_as_event_handle, EventKey};
use crate::value::{canonical_bytes, Field};
use crate::state::{
    distinct_types, holds_type, is_first_of_type, AccountState, LedgerInfo, Resource, Response,
};
use crate::tag::{struct_tag_of_text, valid_identifier, Identifier, StructTag};
use crate::version::{resolve_version, version_of_text, version_outcome, VersionOutcome};

verus! {

/// One query on one account: the version it is answered at, the account's
/// address, and the ledger information read when the query started.
#[derive(PartialEq, Eq, Structural, Clone, Copy, Debug)]
pub struct Account {
    pub ledger_version: u64,
    pub address: Address,
    pub latest_ledger_info: LedgerInfo,
}

/// The bytes of a version text, where one is given.
pub open spec fn version_bytes(requested: Option<&str>) -> Option<Seq<u8>> {
    match requested {
        Some(text) => Some(text.spec_bytes()),
        None => None,
    }
}

/// What a query's parameters resolve to. The version is settled first: a
/// malformed version text is reported with that text, a version past the
/// latest with both versions. Only then is the address read, and a malformed
/// one is reported with its text.
pub open spec fn resolution(requested: Option<&str>, address: &str, latest: LedgerInfo) -> Result<
    Account,
    ErrorModel,
> {
    match version_outcome(version_bytes(requested), latest.ledger_version) {
        VersionOutcome::Malformed => Err(
            ErrorModel::InvalidParameter {
                parameter: Parameter::LedgerVersion,
                raw: requested->Some_0@,
            },
        ),
        VersionOutcome::Beyond { requested: v, latest: l } => Err(
            ErrorModel::LedgerNotFound { requested: v, latest: l },
        ),
        VersionOutcome::At(v) => match address_of_text(address@) {
            None => Err(
                ErrorModel::InvalidParameter { parameter: Parameter::AccountAddress, raw: address@ },
            ),
            Some(a) => Ok(Account { ledger_version: v, address: a, latest_ledger_info: latest }),
        },
    }
}

/// What a result of `Account::new` stands for.
pub open spec fn resolved(result: Result<Account, QueryError>) -> Result<Account, ErrorModel> {
    match result {
        Ok(account) => Ok(account),
        Err(e) => Err(e@),
    }
}

/// For every address text, a version past the latest one is refused as not
/// found, and the refusal carries the latest version.
pub proof fn lemma_version_beyond_latest_is_refused(
    requested: &str,
    address: &str,
    latest: LedgerInfo,
    v: u64,
)
    requires
        version_of_text(requested.spec_bytes()) == Some(v),
        v > latest.ledger_version,
    ensures
        resolution(Some(requested), address, latest) == Err::<Account, ErrorModel>(
            ErrorModel::LedgerNotFound { requested: v, latest: latest.ledger_version },
        ),
{
}

/// Giving no version is the same as giving the latest one: both queries
/// resolve alike, whatever the address text.
pub proof fn lemma_omitted_version_is_latest_version(requested: &str, address: &str, latest: LedgerInfo)
    requires
        version_of_text(requested.spec_bytes()) == Some(latest.ledger_version),
    ensures
        resolution(Some(requested), address, latest) == resolution(None, address, latest),
{
}

/// A query that resolves is answered at a version that is not past the latest.
pub proof fn lemma_resolved_version_is_known(requested: Option<&str>, address: &str, latest: LedgerInfo)
    ensures
        resolution(requested, address, latest) matches Ok(account) ==> account.well_formed()
            && account.latest_ledger_info == latest,
{
}

impl Account {
    /// Whether the query's version is not past the latest one it knows.
    pub open spec fn well_formed(&self) -> bool {
        self.ledger_version <= self.latest_ledger_info.ledger_version
    }

    /// The error for an account without state at the query's version.
    pub open spec fn account_not_found_model(&self) -> ErrorModel {
        ErrorModel::AccountNotFound {
            address: self.address,
            version: self.ledger_version,
            latest: self.latest_ledger_info.ledger_version,
        }
    }

    /// Resolves the parameters of a query against the ledger information
    /// read for it.
    pub fn new(ledger_version: Option<&str>, address: &str, latest_ledger_info: LedgerInfo) -> (result:
        Result<Account, QueryError>)
        ensures
            resolved(result) == resolution(ledger_version, address, latest_ledger_info),
    {
        let version: u64 = match resolve_version(ledger_version, latest_ledger_info.version()) {
            VersionOutcome::At(v) => v,
            VersionOutcome::Malformed => {
                let raw: String = match ledger_version {
                    Some(text) => text.to_owned(),
                    None => String::new(),
                };
                return Err(QueryError::InvalidParameter { parameter: Parameter::LedgerVersion, raw });
            },
            VersionOutcome::Beyond { requested, latest } => {
                return Err(QueryError::LedgerNotFound { requested, latest });
            },
        };
        match Address::parse(address) {
            Some(parsed) => Ok(Account { ledger_version: version, address: parsed, latest_ledger_info }),
            None => Err(
                QueryError::InvalidParameter {
                    parameter: Parameter::AccountAddress,
                    raw: address.to_owned(),
                },
            ),
        }
    }

    /// The error for an account without state at the query's version.
    pub fn account_not_found(&self) -> (error: QueryError)
        ensures
            error@ == self.account_not_found_model(),
    {
        QueryError::AccountNotFound {
            address: self.address,
            version: self.ledger_version,
            latest: self.latest_ledger_info.version(),
        }
    }

    /// The error for a resource type that the account does not hold.
    pub fn resource_not_found(&self, struct_tag: &StructTag) -> (error: QueryError)
        ensures
            error@ == (ErrorModel::ResourceNotFound {
                address: self.address,
                tag: struct_tag@,
                version: self.ledger_version,
                latest: self.latest_ledger_info.ledger_version,
            }),
    {
        QueryError::ResourceNotFound {
            address: self.address,
            tag: struct_tag.duplicate(),
            version: self.ledger_version,
            latest: self.latest_ledger_info.version(),
        }
    }

    /// The error for a field that the resource does not have.
    pub fn field_not_found(&self, struct_tag: &StructTag, field_name: &Identifier) -> (error: QueryError)
        ensures
            error@ == (ErrorModel::FieldNotFound {
                address: self.address,
                tag: struct_tag@,
                field: field_name@,
                version: self.ledger_version,
                latest: self.latest_ledger_info.ledger_version,
            }),
    {
        QueryError::FieldNotFound {
            address: self.address,
            tag: struct_tag.duplicate(),
            field: field_name.duplicate(),
            version: self.ledger_version,
            latest: self.latest_ledger_info.version(),
        }
    }

    /// Takes what the store returned for this query's address and version.
    /// Whatever the reason for which the store has nothing, the account is
    /// reported as not found.
    pub fn account_state(&self, fetched: Option<AccountState>) -> (result: Result<AccountState, QueryError>)
        ensures
            match fetched {
                Some(state) => result == Ok::<AccountState, QueryError>(state),
                None => result matches Err(e) && e@ == self.account_not_found_model(),
            },
    {
        match fetched {
            Some(state) => Ok(state),
            None => Err(self.account_not_found()),
        }
    }

    /// All resources of the account, in the store's order, with the query's
    /// ledger information.
    pub fn resources(self, fetched: Option<AccountState>) -> (result: Result<
        Response<Vec<Resource>>,
        QueryError,
    >)
        ensures
            match fetched {
                Some(state) => result matches Ok(response) && response.ledger_info
                    == self.latest_ledger_info && response.body == state.resources,
                None => result matches Err(e) && e@ == self.account_not_found_model(),
            },
    {
        match self.account_state(fetched) {
            Ok(state) => Ok(Response::new(self.latest_ledger_info, state.resources)),
            Err(e) => Err(e),
        }
    }

    /// The bytes of all modules of the account, in the store's order, with
    /// the query's ledger information.
    pub fn modules(self, fetched: Option<AccountState>) -> (result: Result<
        Response<Vec<Vec<u8>>>,
        QueryError,
    >)
        ensures
            match fetched {
                Some(state) => result matches Ok(response) && response.ledger_info
                    == self.latest_ledger_info && response.body == state.modules,
                None => result matches Err(e) && e@ == self.account_not_found_model(),
            },
    {
        match self.account_state(fetched) {
            Ok(state) => Ok(Response::new(self.latest_ledger_info, state.modules)),
            Err(e) => Err(e),
        }
    }

    /// Finds the account's resource of the type `struct_tag`: the first one
    /// whose descriptor is the same in every part.
    pub fn find_resource<'a>(&self, state: &'a AccountState, struct_tag: &StructTag) -> (result: Result<
        &'a Resource,
        QueryError,
    >)
        ensures
            resource_result_fits(*self, result, state.resources@, struct_tag@),
    {
        match state.position_of(struct_tag) {
            Some(i) => Ok(&state.resources[i]),
            None => Err(self.resource_not_found(struct_tag)),
        }
    }

    /// Finds the field named `field_name` among the decoded fields of the
    /// resource of type `struct_tag`: the first of that name.
    pub fn find_field(&self, struct_tag: &StructTag, fields: &Vec<Field>, field_name: &Identifier) -> (result:
        Result<usize, QueryError>)
        ensures
            match result {
                Ok(i) => is_first_named(fields@, field_name@, i as int),
                Err(e) => !has_field(fields@, field_name@) && e@ == (ErrorModel::FieldNotFound {
                    address: self.address,
                    tag: struct_tag@,
                    field: field_name@,
                    version: self.ledger_version,
                    latest: self.latest_ledger_info.ledger_version,
                }),
            },
    {
        let n: usize = fields.len();
        let mut i: usize = 0;
        while i < n
            invariant
                n == fields@.len(),
                i <= n,
                forall|k: int| 0 <= k < i ==> (#[trigger] fields@[k]).name@ != field_name@,
            decreases n - i,
        {
            if fields[i].name.equals(field_name) {
                return Ok(i);
            }
            i = i + 1;
        }
        Err(self.field_not_found(struct_tag, field_name))
    }

    /// Reads the two parameters of a search for an event key: first the
    /// descriptor of the resource, then the name of the field. A malformed
    /// one is reported with its text, the descriptor before the name.
    pub fn event_key_parameters(struct_tag_param: &str, field_name_param: &str) -> (result: Result<
        (StructTag, Identifier),
        QueryError,
    >)
        ensures
            match struct_tag_of_text(struct_tag_param) {
                None => result matches Err(e) && e@ == (ErrorModel::InvalidParameter {
                    parameter: Parameter::EventHandleStruct,
                    raw: struct_tag_param@,
                }),
                Some(tag) => if valid_identifier(field_name_param.spec_bytes()) {
                    result matches Ok(pair) && pair.0@ == tag && pair.1@
                        == field_name_param.spec_bytes()
                } else {
                    result matches Err(e) && e@ == (ErrorModel::InvalidParameter {
                        parameter: Parameter::EventHandleFieldName,
                        raw: field_name_param@,
                    })
                },
            },
    {
        let tag = match StructTag::parse(struct_tag_param) {
            Some(tag) => tag,
            None => {
                return Err(
                    QueryError::InvalidParameter {
                        parameter: Parameter::EventHandleStruct,
                        raw: struct_tag_param.to_owned(),
                    },
                );
            },
        };
        match Identifier::new(field_name_param) {
            Some(field) => Ok((tag, field)),
            None => Err(
                QueryError::InvalidParameter {
                    parameter: Parameter::EventHandleFieldName,
                    raw: field_name_param.to_owned(),
                },
            ),
        }
    }

    /// The key of the event stream whose handle is the field `field_name` of
    /// the resource of type `struct_tag`, given that resource's decoded fields.
    pub fn find_event_key(&self, struct_tag: &StructTag, field_name: &Identifier, fields: &Vec<Field>) -> (result:
        Result<EventKey, QueryError>)
        ensures
            event_key_fits(*self, result, struct_tag@, field_name@, fields@),
    {
        match self.find_field(struct_tag, fields, field_name) {
            Ok(i) => reinterpret_as_event_handle(field_name, &fields[i].value),
            Err(e) => Err(e),
        }
    }
}

/// Whether `result` is what the search for a resource owes: the first
/// resource of the type where there is one, else the report that the account
/// holds none of the type at the query's version.
pub open spec fn resource_result_fits(
    account: Account,
    result: Result<&Resource, QueryError>,
    resources: Seq<Resource>,
    tag: crate::tag::TagModel,
) -> bool {
    match result {
        Ok(resource) => exists|i: int|
            is_first_of_type(resources, tag, i) && *resource == #[trigger] resources[i],
        Err(e) => !holds_type(resources, tag) && e@ == (ErrorModel::ResourceNotFound {
            address: account.address,
            tag,
            version: account.ledger_version,
            latest: account.latest_ledger_info.ledger_version,
        }),
    }
}

/// In an account whose resources have each a type of its own, the search for
/// a type that one of them has finds exactly that resource, and the search
/// for any other type reports that none is found, with the latest version.
pub proof fn lemma_search_finds_the_resource(
    account: Account,
    result: Result<&Resource, QueryError>,
    resources: Seq<Resource>,
    tag: crate::tag::TagModel,
)
    requires
        distinct_types(resources),
        resource_result_fits(account, result, resources, tag),
    ensures
        forall|j: int|
            0 <= j < resources.len() && (#[trigger] resources[j]).tag@ == tag ==> result is Ok
                && *result->Ok_0 == resources[j],
        !holds_type(resources, tag) ==> result is Err && result->Err_0@ is ResourceNotFound
            && crate::error::latest_of(result->Err_0@) == Some(
            account.latest_ledger_info.ledger_version,
        ),
{
    assert forall|j: int|
        0 <= j < resources.len() && (#[trigger] resources[j]).tag@ == tag implies result is Ok
        && *result->Ok_0 == resources[j] by {
        assert(holds_type(resources, tag));
        let i = choose|i: int|
            is_first_of_type(resources, tag, i) && *result->Ok_0 == #[trigger] resources[i];
        if i < j {
            assert(resources[i].tag@ != resources[j].tag@);
        }
        if j < i {
            assert(resources[j].tag@ != resources[i].tag@);
        }
    }
}

/// Whether some field among `fields` is named `name`.
pub open spec fn has_field(fields: Seq<Field>, name: Seq<u8>) -> bool {
    exists|k: int| 0 <= k < fields.len() && (#[trigger] fields[k]).name@ == name
}

/// Whether the field at `i` is named `name` and none before it is.
pub open spec fn is_first_named(fields: Seq<Field>, name: Seq<u8>, i: int) -> bool {
    &&& 0 <= i < fields.len()
    &&& fields[i].name@ == name
    &&& forall|k: int| 0 <= k < i ==> (#[trigger] fields[k]).name@ != name
}

/// Whether `result` is what the search for an event key owes: without a field
/// of the name, the field is reported as not found; with one, the first such
/// field's value is narrowed to an event handle.
pub open spec fn event_key_fits(
    account: Account,
    result: Result<EventKey, QueryError>,
    tag: crate::tag::TagModel,
    name: Seq<u8>,
    fields: Seq<Field>,
) -> bool {
    if has_field(fields, name) {
        exists|i: int|
            is_first_named(fields, name, i) && key_result_fits(
                result,
                name,
                canonical_bytes((#[trigger] fields[i]).value@),
            ) && handle_result_fits(result, fields[i].value@)
    } else {
        result matches Err(e) && e@ == (ErrorModel::FieldNotFound {
            address: account.address,
            tag,
            field: name,
            version: account.ledger_version,
            latest: account.latest_ledger_info.ledger_version,
        })
    }
}

/// Where a resource's field holds an event handle, the search for its event
/// key gives the key stored in the handle; where the field holds anything
/// else that has canonical bytes, the search reports the asker's mistake, and
/// never a fault of the server.
pub proof fn lemma_event_key_of_handle_field(
    account: Account,
    result: Result<EventKey, QueryError>,
    tag: crate::tag::TagModel,
    name: Seq<u8>,
    fields: Seq<Field>,
    i: int,
    bytes: Seq<u8>,
)
    requires
        event_key_fits(account, result, tag, name, fields),
        is_first_named(fields, name, i),
        canonical_bytes(fields[i].value@) == Some(bytes),
    ensures
        crate::event::is_event_handle(bytes) ==> result is Ok && result->Ok_0@
            == crate::event::event_key_in(bytes),
        !crate::event::is_event_handle(bytes) ==> result is Err && result->Err_0@ is BadRequest
            && result->Err_0@->BadRequest_field == name,
{
    let j = choose|j: int|
        is_first_named(fields, name, j) && key_result_fits(
            result,
            name,
            canonical_bytes((#[trigger] fields[j]).value@),
        ) && handle_result_fits(result, fields[j].value@);
    if j < i {
        assert(fields[j].name@ != name);
    }
    if i < j {
        assert(fields[i].name@ != name);
    }
}

} // verus!
