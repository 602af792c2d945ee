use vstd::prelude::*;

use crate::console::{has_name, CVar, EntryModel, VarData, VarEntry, VarKind, Vars};

verus! {

/// A token that stays the same between sessions and identifies this client.
pub fn auth_client_token() -> (v: CVar<String>)
    ensures
        v.name@ == "auth_client_token"@,
        v.description@ == "auth_client_token is a token that stays static between sessions.\nUsed to identify this client vs others."@,
        !v.mutable,
        v.serializable,
        v.default@ == Seq::<char>::empty(),
{
    CVar {
        name: "auth_client_token",
        description: "auth_client_token is a token that stays static between sessions.\nUsed to identify this client vs others.",
        mutable: false,
        serializable: true,
        default: String::new(),
    }
}

/// The entry that registering `auth_client_token()` adds.
pub open spec fn auth_client_token_entry() -> EntryModel {
    VarEntry {
        name: "auth_client_token"@,
        kind: VarKind::Text,
        description: "auth_client_token is a token that stays static between sessions.\nUsed to identify this client vs others."@,
        serializable: true,
        value: VarData::Text(Seq::empty()),
    }
}

/// Registers the variables of authentication.
pub fn register_vars(vars: &mut Vars)
    requires
        !has_name(old(vars)@, "auth_client_token"@),
    ensures
        final(vars)@ == old(vars)@.push(auth_client_token_entry()),
{
    vars.register(auth_client_token());
}

} // verus!
