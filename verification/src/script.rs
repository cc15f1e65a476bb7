use vstd::prelude::*;
use vstd::string::StringExecFns;
use crate::address::{short_hex, Address};

verus! {

/// What names a script function: the address and the name of its module,
/// and its own name.
#[derive(Debug)]
pub struct ScriptName {
    pub address: Address,
    pub module: String,
    pub function: String,
}

/// What a `ScriptName` stands for.
pub struct ScriptNameModel {
    pub address: Address,
    pub module: Seq<char>,
    pub function: Seq<char>,
}

impl View for ScriptName {
    type V = ScriptNameModel;

    open spec fn view(&self) -> ScriptNameModel {
        ScriptNameModel { address: self.address, module: self.module@, function: self.function@ }
    }
}

/// The script function whose canonical bytes these are, where they are one's:
/// what `bcs::from_bytes` returns for them, asked for a `ScriptFunction`.
pub uninterp spec fn script_function_in(bytes: Seq<u8>) -> Option<ScriptNameModel>;

/// The name a script function is shown under.
pub open spec fn shown_name(name: ScriptNameModel) -> Seq<char> {
    short_hex(name.address.value as nat) + "::"@ + name.module + "::"@ + name.function
}

/// Calls `bcs::from_bytes` for `ScriptFunction` of diem-types and takes the
/// three parts of its name. Believed without proof: whether the call accepts
/// the bytes, and the name it then returns, depend on the bytes alone, so
/// they are `script_function_in` of them.
#[verifier::external_body]
fn decode_script_function(bytes: &[u8]) -> (decoded: Result<ScriptName, bcs::Error>)
    ensures
        match script_function_in(bytes@) {
            Some(name) => decoded matches Ok(n) && n@ == name,
            None => decoded is Err,
        },
{
    match bcs::from_bytes::<diem_types::transaction::ScriptFunction>(bytes) {
        Ok(script) => Ok(ScriptName {
            address: Address { value: u128::from_be_bytes(script.module().address().into_bytes()) },
            module: script.module().name().to_string(),
            function: script.function().to_string(),
        }),
        Err(e) => Err(e),
    }
}

impl ScriptName {
    /// The name as it is shown: `address::module::function`, the address in
    /// its short form.
    pub fn shown(&self) -> (text: String)
        ensures
            text@ == shown_name(self@),
    {
        let text = self.address.short_text();
        let text = text.concat("::");
        let text = text.concat(self.module.as_str());
        let text = text.concat("::");
        text.concat(self.function.as_str())
    }
}

/// The name of the script function that the bytes of a script encode.
pub fn name_for_script(bytes: &[u8]) -> (name: Result<String, bcs::Error>)
    ensures
        match script_function_in(bytes@) {
            Some(script) => name matches Ok(text) && text@ == shown_name(script),
            None => name is Err,
        },
{
    match decode_script_function(bytes) {
        Ok(script) => Ok(script.shown()),
        Err(e) => Err(e),
    }
}

} // verus!
