//! The secret bundle: a JSON object of named strings, fetched once when the
//! process starts and handed on as a value.

use crate::json::{distinct_keys, json_parsed, members_view, Json, JsonValue};
use crate::text::same_text;
use vstd::prelude::*;

verus! {

/// Why no secrets were loaded.
#[derive(Debug, Clone, Copy, PartialEq, Eq, Structural)]
pub enum SecretsError {
    /// The secret has no string value.
    NotFound,
    /// The secret's value is not JSON.
    NotJson,
    /// The secret's value is not an object of strings.
    NotStrings,
}

/// The secrets of a bundle, each a name and a value, in the order of the
/// bundle. A bundle that was loaded holds no name twice.
#[derive(Debug, Clone, PartialEq)]
pub struct Secrets {
    pub entries: Vec<(String, String)>,
}

/// The views of a run of secrets.
pub open spec fn entries_view(entries: Seq<(String, String)>) -> Seq<(Seq<char>, Seq<char>)> {
    Seq::new(entries.len(), |i: int| (entries[i].0@, entries[i].1@))
}

impl View for Secrets {
    type V = Seq<(Seq<char>, Seq<char>)>;

    open spec fn view(&self) -> Seq<(Seq<char>, Seq<char>)> {
        entries_view(self.entries@)
    }
}

/// The secrets that a JSON document holds: it is an object, and every member
/// of it is a string.
pub open spec fn document_secrets(document: JsonValue) -> Option<Seq<(Seq<char>, Seq<char>)>> {
    match document {
        JsonValue::Object(members) => if forall|i: int|
            0 <= i < members.len() ==> (#[trigger] members[i]).1 is Text {
            Some(Seq::new(members.len(), |i: int| (members[i].0, members[i].1->Text_0)))
        } else {
            None
        },
        _ => None,
    }
}

/// The secrets in the string value of a fetched secret, which may be missing.
pub open spec fn loaded_secrets(secret_string: Option<Seq<char>>) -> Result<
    Seq<(Seq<char>, Seq<char>)>,
    SecretsError,
> {
    match secret_string {
        None => Err(SecretsError::NotFound),
        Some(text) => match json_parsed(text) {
            None => Err(SecretsError::NotJson),
            Some(document) => match document_secrets(document) {
                None => Err(SecretsError::NotStrings),
                Some(secrets) => Ok(secrets),
            },
        },
    }
}

/// The value of the first secret named `name`.
pub open spec fn secret_named(secrets: Seq<(Seq<char>, Seq<char>)>, name: Seq<char>) -> Option<
    Seq<char>,
>
    decreases secrets.len(),
{
    if secrets.len() == 0 {
        None
    } else if secrets[0].0 == name {
        Some(secrets[0].1)
    } else {
        secret_named(secrets.drop_first(), name)
    }
}

/// Reads the secrets out of the string value of a fetched secret.
#[verifier::loop_isolation(false)]
pub fn load_secrets(secret_string: Option<&str>) -> (secrets: Result<Secrets, SecretsError>)
    ensures
        match secrets {
            Ok(s) => loaded_secrets(
                match secret_string {
                    Some(t) => Some(t@),
                    None => None,
                },
            ) == Ok::<_, SecretsError>(s@),
            Err(e) => loaded_secrets(
                match secret_string {
                    Some(t) => Some(t@),
                    None => None,
                },
            ) == Err::<Seq<(Seq<char>, Seq<char>)>, _>(e),
        },
        secrets matches Ok(s) ==> distinct_keys(s@),
{
    let text = match secret_string {
        Some(text) => text,
        None => {
            return Err(SecretsError::NotFound);
        },
    };
    let document = match Json::parse(text) {
        Some(document) => document,
        None => {
            return Err(SecretsError::NotJson);
        },
    };
    let members = match document.as_object() {
        Some(members) => members,
        None => {
            return Err(SecretsError::NotStrings);
        },
    };
    let ghost all = members_view(members@);
    let mut entries: Vec<(String, String)> = Vec::new();
    let mut i: usize = 0;
    while i < members.len()
        invariant
            i <= members.len(),
            all == members_view(members@),
            entries.len() == i,
            forall|k: int|
                0 <= k < i ==> (#[trigger] all[k]).1 == JsonValue::Text(entries@[k].1@)
                    && entries@[k].0@ == all[k].0,
        decreases members.len() - i,
    {
        let member = &members[i];
        assert(all[i as int] == member.pair());
        match member.value.as_str() {
            Some(value) => {
                entries.push((member.name.clone(), value.to_owned()));
            },
            None => {
                assert(!(all[i as int].1 is Text));
                return Err(SecretsError::NotStrings);
            },
        }
        i += 1;
    }
    assert(document_secrets(document@) == Some(entries_view(entries@))) by {
        assert(document_secrets(document@)->0 =~= entries_view(entries@));
    }
    assert(distinct_keys(entries_view(entries@))) by {
        assert(JsonValue::Object(all).unambiguous());
        assert(JsonValue::names_distinct(all));
        assert forall|i: int, j: int| 0 <= i < j < entries@.len() implies (
        #[trigger] entries_view(entries@)[i]).0 != (#[trigger] entries_view(entries@)[j]).0 by {
            assert(entries_view(entries@)[i].0 == all[i].0);
            assert(entries_view(entries@)[j].0 == all[j].0);
        }
    }
    Ok(Secrets { entries })
}

impl Secrets {
    /// The value of the first secret named `name`.
    pub fn get(&self, name: &str) -> (value: Option<&str>)
        ensures
            match value {
                Some(v) => secret_named(self@, name@) == Some(v@),
                None => secret_named(self@, name@) is None,
            },
    {
        let ghost all = self@;
        assert(all.skip(0) =~= all);
        let mut i: usize = 0;
        while i < self.entries.len()
            invariant
                i <= self.entries.len(),
                all == entries_view(self.entries@),
                secret_named(all, name@) == secret_named(all.skip(i as int), name@),
            decreases self.entries.len() - i,
        {
            let ghost rest = all.skip(i as int);
            assert(rest[0] == all[i as int]);
            assert(rest.drop_first() =~= all.skip(i + 1));
            if same_text(self.entries[i].0.as_str(), name) {
                return Some(self.entries[i].1.as_str());
            }
            i += 1;
        }
        None
    }
}

} // verus!
