use vstd::prelude::*;
use vstd::string::StringExecFns;
use crate::address::{address_text, Address};
use crate::tag::{lossy_text, tag_text, Identifier, StructTag, TagModel};
use crate::version::{decimal, version_text};

verus! {

/// Which parameter of a query a text was given for.
#[derive(PartialEq, Eq, Structural, Clone, Copy, Debug)]
pub enum Parameter {
    LedgerVersion,
    AccountAddress,
    /// The descriptor of the resource that holds an event handle.
    EventHandleStruct,
    /// The name of the field that holds an event handle.
    EventHandleFieldName,
}

/// Why a query ended without an answer. Every variant that reports something
/// as not found carries the latest ledger version known when the query ran.
#[derive(Debug)]
pub enum QueryError {
    /// A parameter's text is malformed; `raw` is that text.
    InvalidParameter { parameter: Parameter, raw: String },
    /// The version asked for lies past the latest one.
    LedgerNotFound { requested: u64, latest: u64 },
    /// The account holds no state at the version.
    AccountNotFound { address: Address, version: u64, latest: u64 },
    /// The account holds no resource of the type at the version.
    ResourceNotFound { address: Address, tag: StructTag, version: u64, latest: u64 },
    /// The resource has no field of the name.
    FieldNotFound { address: Address, tag: StructTag, field: Identifier, version: u64, latest: u64 },
    /// The field is there but does not have the shape asked for.
    BadRequest { field: Identifier, diagnostic: String },
    /// A value that was decoded could not be encoded again.
    Internal { diagnostic: String },
}

/// What a `QueryError` stands for.
pub enum ErrorModel {
    InvalidParameter { parameter: Parameter, raw: Seq<char> },
    LedgerNotFound { requested: u64, latest: u64 },
    AccountNotFound { address: Address, version: u64, latest: u64 },
    ResourceNotFound { address: Address, tag: TagModel, version: u64, latest: u64 },
    FieldNotFound { address: Address, tag: TagModel, field: Seq<u8>, version: u64, latest: u64 },
    BadRequest { field: Seq<u8>, diagnostic: Seq<char> },
    Internal { diagnostic: Seq<char> },
}

impl View for QueryError {
    type V = ErrorModel;

    open spec fn view(&self) -> ErrorModel {
        match *self {
            QueryError::InvalidParameter { parameter, raw } => ErrorModel::InvalidParameter {
                parameter,
                raw: raw@,
            },
            QueryError::LedgerNotFound { requested, latest } => ErrorModel::LedgerNotFound {
                requested,
                latest,
            },
            QueryError::AccountNotFound { address, version, latest } => ErrorModel::AccountNotFound {
                address,
                version,
                latest,
            },
            QueryError::ResourceNotFound { address, tag, version, latest } => ErrorModel::ResourceNotFound {
                address,
                tag: tag@,
                version,
                latest,
            },
            QueryError::FieldNotFound { address, tag, field, version, latest } => ErrorModel::FieldNotFound {
                address,
                tag: tag@,
                field: field@,
                version,
                latest,
            },
            QueryError::BadRequest { field, diagnostic } => ErrorModel::BadRequest {
                field: field@,
                diagnostic: diagnostic@,
            },
            QueryError::Internal { diagnostic } => ErrorModel::Internal { diagnostic: diagnostic@ },
        }
    }
}

/// The status that an error is reported under: 400 for a request that is
/// wrong in itself, 404 for what is not there, 500 for a fault of the server.
pub open spec fn status_of(e: ErrorModel) -> u16 {
    match e {
        ErrorModel::InvalidParameter { .. } => 400,
        ErrorModel::BadRequest { .. } => 400,
        ErrorModel::LedgerNotFound { .. } => 404,
        ErrorModel::AccountNotFound { .. } => 404,
        ErrorModel::ResourceNotFound { .. } => 404,
        ErrorModel::FieldNotFound { .. } => 404,
        ErrorModel::Internal { .. } => 500,
    }
}

/// The latest ledger version that an error carries, where it carries one.
pub open spec fn latest_of(e: ErrorModel) -> Option<u64> {
    match e {
        ErrorModel::LedgerNotFound { latest, .. } => Some(latest),
        ErrorModel::AccountNotFound { latest, .. } => Some(latest),
        ErrorModel::ResourceNotFound { latest, .. } => Some(latest),
        ErrorModel::FieldNotFound { latest, .. } => Some(latest),
        _ => None,
    }
}

/// How a parameter is called in a message.
pub open spec fn parameter_name(parameter: Parameter) -> Seq<char> {
    match parameter {
        Parameter::LedgerVersion => "ledger version"@,
        Parameter::AccountAddress => "account address"@,
        Parameter::EventHandleStruct => "event handle struct"@,
        Parameter::EventHandleFieldName => "event handle field name"@,
    }
}

/// The message of an error, as a client reads it.
pub open spec fn message_of(e: QueryError) -> Seq<char> {
    match e {
        QueryError::InvalidParameter { parameter, raw } => "invalid parameter "@ + parameter_name(
            parameter,
        ) + ": "@ + raw@,
        QueryError::LedgerNotFound { requested, .. } => "ledger not found by version("@ + decimal(
            requested as nat,
        ) + ")"@,
        QueryError::AccountNotFound { address, version, .. } => "account not found by address("@
            + address_text(address) + ") and ledger version("@ + decimal(version as nat) + ")"@,
        QueryError::ResourceNotFound { address, tag, version, .. } => "resource not found by address("@
            + address_text(address) + "), struct tag("@ + tag_text(tag) + ") and ledger version("@
            + decimal(version as nat) + ")"@,
        QueryError::FieldNotFound { address, tag, field, version, .. } => "resource not found by address("@
            + address_text(address) + "), struct tag("@ + tag_text(tag) + "), field name("@
            + lossy_text(field@) + ") and ledger version("@ + decimal(version as nat) + ")"@,
        QueryError::BadRequest { field, diagnostic } => "field("@ + lossy_text(field@)
            + ") type is not EventHandle struct, deserialize error: "@ + diagnostic@,
        QueryError::Internal { diagnostic } => diagnostic@,
    }
}

impl Parameter {
    /// How the parameter is called in a message.
    pub fn name(&self) -> (name: &'static str)
        ensures
            name@ == parameter_name(*self),
    {
        match self {
            Parameter::LedgerVersion => "ledger version",
            Parameter::AccountAddress => "account address",
            Parameter::EventHandleStruct => "event handle struct",
            Parameter::EventHandleFieldName => "event handle field name",
        }
    }
}

impl QueryError {
    /// The message of this error, as a client reads it.
    pub fn message(&self) -> (text: String)
        ensures
            text@ == message_of(*self),
    {
        match self {
            QueryError::InvalidParameter { parameter, raw } => String::from_str("invalid parameter ").concat(
                parameter.name(),
            ).concat(": ").concat(raw.as_str()),
            QueryError::LedgerNotFound { requested, .. } => String::from_str(
                "ledger not found by version(",
            ).concat(version_text(*requested).as_str()).concat(")"),
            QueryError::AccountNotFound { address, version, .. } => String::from_str(
                "account not found by address(",
            ).concat(address.text().as_str()).concat(") and ledger version(").concat(
                version_text(*version).as_str(),
            ).concat(")"),
            QueryError::ResourceNotFound { address, tag, version, .. } => String::from_str(
                "resource not found by address(",
            ).concat(address.text().as_str()).concat("), struct tag(").concat(tag.text().as_str()).concat(
                ") and ledger version(",
            ).concat(version_text(*version).as_str()).concat(")"),
            QueryError::FieldNotFound { address, tag, field, version, .. } => String::from_str(
                "resource not found by address(",
            ).concat(address.text().as_str()).concat("), struct tag(").concat(tag.text().as_str()).concat(
                "), field name(",
            ).concat(field.text().as_str()).concat(") and ledger version(").concat(
                version_text(*version).as_str(),
            ).concat(")"),
            QueryError::BadRequest { field, diagnostic } => String::from_str("field(").concat(
                field.text().as_str(),
            ).concat(") type is not EventHandle struct, deserialize error: ").concat(diagnostic.as_str()),
            QueryError::Internal { diagnostic } => String::from_str(diagnostic.as_str()),
        }
    }

    /// The status that this error is reported under.
    pub fn status(&self) -> (code: u16)
        ensures
            code == status_of(self@),
    {
        match self {
            QueryError::InvalidParameter { .. } => 400,
            QueryError::BadRequest { .. } => 400,
            QueryError::LedgerNotFound { .. } => 404,
            QueryError::AccountNotFound { .. } => 404,
            QueryError::ResourceNotFound { .. } => 404,
            QueryError::FieldNotFound { .. } => 404,
            QueryError::Internal { .. } => 500,
        }
    }

    /// The latest ledger version that this error carries, where it carries one.
    pub fn latest_version(&self) -> (latest: Option<u64>)
        ensures
            latest == latest_of(self@),
    {
        match self {
            QueryError::LedgerNotFound { latest, .. } => Some(*latest),
            QueryError::AccountNotFound { latest, .. } => Some(*latest),
            QueryError::ResourceNotFound { latest, .. } => Some(*latest),
            QueryError::FieldNotFound { latest, .. } => Some(*latest),
            _ => None,
        }
    }
}

} // verus!
