//! Reading the members of a JSON object by name and by type.
//!
//! Every document this crate reads is an object whose members are strings,
//! integers, lists of integers, or other such objects. The readers below fetch
//! one member each and say exactly when that fails and how.

use vstd::prelude::*;
use vstd::string::StringExecFns;
use serde_json::Value;
use crate::json::{is_null, items_of, member, signed_of, text_of, unsigned_of};
use crate::json::{json_document, json_is_null, json_items, json_members, json_signed, json_text};
use crate::json::json_unsigned;
use crate::views::{viewed, viewed_option};

verus! {

/// The members that the crate knows by name.
#[derive(Clone, Copy, Debug, PartialEq, Eq, Structural)]
pub enum Field {
    Provider,
    AccountName,
    AppId,
    Scopes,
    DeviceCodeEndpoint,
    TokenEndpoint,
    Token,
    TokenType,
    Expires,
    AccessToken,
    RefreshToken,
    UserCode,
    DeviceCode,
    VerificationUri,
    VerificationUrl,
    ExpiresIn,
    ExtExpiresIn,
    Error,
    ErrorDescription,
    ErrorCodes,
}

impl Field {
    /// The key under which the member stands in a document.
    pub open spec fn key(self) -> Seq<char> {
        match self {
            Field::Provider => "provider"@,
            Field::AccountName => "account_name"@,
            Field::AppId => "app_id"@,
            Field::Scopes => "scopes"@,
            Field::DeviceCodeEndpoint => "device_code_endpoint"@,
            Field::TokenEndpoint => "token_endpoint"@,
            Field::Token => "token"@,
            Field::TokenType => "token_type"@,
            Field::Expires => "expires"@,
            Field::AccessToken => "access_token"@,
            Field::RefreshToken => "refresh_token"@,
            Field::UserCode => "user_code"@,
            Field::DeviceCode => "device_code"@,
            Field::VerificationUri => "verification_uri"@,
            Field::VerificationUrl => "verification_url"@,
            Field::ExpiresIn => "expires_in"@,
            Field::ExtExpiresIn => "ext_expires_in"@,
            Field::Error => "error"@,
            Field::ErrorDescription => "error_description"@,
            Field::ErrorCodes => "error_codes"@,
        }
    }

    /// The key under which the member stands in a document.
    pub fn name(self) -> (r: &'static str)
        ensures
            r@ == self.key(),
    {
        match self {
            Field::Provider => "provider",
            Field::AccountName => "account_name",
            Field::AppId => "app_id",
            Field::Scopes => "scopes",
            Field::DeviceCodeEndpoint => "device_code_endpoint",
            Field::TokenEndpoint => "token_endpoint",
            Field::Token => "token",
            Field::TokenType => "token_type",
            Field::Expires => "expires",
            Field::AccessToken => "access_token",
            Field::RefreshToken => "refresh_token",
            Field::UserCode => "user_code",
            Field::DeviceCode => "device_code",
            Field::VerificationUri => "verification_uri",
            Field::VerificationUrl => "verification_url",
            Field::ExpiresIn => "expires_in",
            Field::ExtExpiresIn => "ext_expires_in",
            Field::Error => "error",
            Field::ErrorDescription => "error_description",
            Field::ErrorCodes => "error_codes",
        }
    }
}

/// No two fields stand under the same key.
pub proof fn lemma_keys_differ(f: Field, g: Field)
    requires
        f != g,
    ensures
        f.key() != g.key(),
{
    reveal_strlit("provider");
    reveal_strlit("account_name");
    reveal_strlit("app_id");
    reveal_strlit("scopes");
    reveal_strlit("device_code_endpoint");
    reveal_strlit("token_endpoint");
    reveal_strlit("token");
    reveal_strlit("token_type");
    reveal_strlit("expires");
    reveal_strlit("access_token");
    reveal_strlit("refresh_token");
    reveal_strlit("user_code");
    reveal_strlit("device_code");
    reveal_strlit("verification_uri");
    reveal_strlit("verification_url");
    reveal_strlit("expires_in");
    reveal_strlit("ext_expires_in");
    reveal_strlit("error");
    reveal_strlit("error_description");
    reveal_strlit("error_codes");
    // Two keys of one length differ in their first, second, seventh or last
    // character.
    let n = f.key().len() as int;
    if n == g.key().len() {
        assert(f.key()[0] != g.key()[0] || f.key()[1] != g.key()[1] || f.key()[6] != g.key()[6]
            || f.key()[n - 1] != g.key()[n - 1]);
    }
}

/// Why a document could not be read.
#[derive(Clone, Copy, Debug, PartialEq, Eq, Structural)]
pub enum DecodeError {
    /// The text is not one JSON document.
    Syntax,
    /// The document is not a list where a list of records is expected.
    NotAList,
    /// A member that must be there is not.
    Missing(Field),
    /// A member is there but holds a value of the wrong type or out of range.
    Invalid(Field),
    /// A member is given twice, under its name and under its alias.
    Ambiguous(Field),
}

impl DecodeError {
    /// The words in which the error is reported.
    pub open spec fn message_spec(self) -> Seq<char> {
        match self {
            DecodeError::Syntax => "not a JSON document"@,
            DecodeError::NotAList => "not a list of records"@,
            DecodeError::Missing(f) => "missing field `"@ + f.key() + "`"@,
            DecodeError::Invalid(f) => "invalid value for field `"@ + f.key() + "`"@,
            DecodeError::Ambiguous(f) => "more than one name given for field `"@ + f.key() + "`"@,
        }
    }

    /// The words in which the error is reported.
    pub fn message(self) -> (r: String)
        ensures
            r@ == self.message_spec(),
    {
        match self {
            DecodeError::Syntax => "not a JSON document".to_owned(),
            DecodeError::NotAList => "not a list of records".to_owned(),
            DecodeError::Missing(f) => {
                let mut r = "missing field `".to_owned();
                r.append(f.name());
                r.append("`");
                r
            },
            DecodeError::Invalid(f) => {
                let mut r = "invalid value for field `".to_owned();
                r.append(f.name());
                r.append("`");
                r
            },
            DecodeError::Ambiguous(f) => {
                let mut r = "more than one name given for field `".to_owned();
                r.append(f.name());
                r.append("`");
                r
            },
        }
    }
}

/// The member under the field's key, if the document is an object with such a
/// member.
pub open spec fn lookup(doc: Value, field: Field) -> Option<Value> {
    if json_members(doc).contains_key(field.key()) {
        Some(json_members(doc)[field.key()])
    } else {
        None
    }
}

/// A member that must be a JSON string.
pub open spec fn required_text(doc: Value, field: Field) -> Result<Seq<char>, DecodeError> {
    match lookup(doc, field) {
        None => Err(DecodeError::Missing(field)),
        Some(m) => match json_text(m) {
            Some(s) => Ok(s),
            None => Err(DecodeError::Invalid(field)),
        },
    }
}

/// A member that may be absent or `null` but otherwise must be a JSON string.
pub open spec fn optional_text(doc: Value, field: Field) -> Result<Option<Seq<char>>, DecodeError> {
    match lookup(doc, field) {
        None => Ok(None),
        Some(m) => match json_text(m) {
            Some(s) => Ok(Some(s)),
            None => if json_is_null(m) {
                Ok(None)
            } else {
                Err(DecodeError::Invalid(field))
            },
        },
    }
}

/// The document as a 32-bit integer.
pub open spec fn i32_of(doc: Value) -> Option<i32> {
    match json_signed(doc) {
        Some(n) => if i32::MIN <= n <= i32::MAX {
            Some(n as i32)
        } else {
            None
        },
        None => None,
    }
}

/// A member that must be an integer within `i32`.
pub open spec fn required_i32(doc: Value, field: Field) -> Result<i32, DecodeError> {
    match lookup(doc, field) {
        None => Err(DecodeError::Missing(field)),
        Some(m) => match i32_of(m) {
            Some(n) => Ok(n),
            None => Err(DecodeError::Invalid(field)),
        },
    }
}

/// A member that must be a non-negative integer within `u64`.
pub open spec fn required_u64(doc: Value, field: Field) -> Result<u64, DecodeError> {
    match lookup(doc, field) {
        None => Err(DecodeError::Missing(field)),
        Some(m) => match json_unsigned(m) {
            Some(n) => Ok(n),
            None => Err(DecodeError::Invalid(field)),
        },
    }
}

/// Whether every element is an integer within `i32`.
pub open spec fn all_i32(items: Seq<Value>) -> bool {
    forall|i: int| 0 <= i < items.len() ==> (#[trigger] i32_of(items[i])) is Some
}

/// The document as a list of 32-bit integers.
pub open spec fn i32_list_of(doc: Value) -> Option<Seq<i32>> {
    match json_items(doc) {
        Some(items) => if all_i32(items) {
            Some(Seq::new(items.len(), |i: int| i32_of(items[i]).unwrap()))
        } else {
            None
        },
        None => None,
    }
}

/// A member that must be a list of integers within `i32`.
pub open spec fn required_i32_list(doc: Value, field: Field) -> Result<Seq<i32>, DecodeError> {
    match lookup(doc, field) {
        None => Err(DecodeError::Missing(field)),
        Some(m) => match i32_list_of(m) {
            Some(l) => Ok(l),
            None => Err(DecodeError::Invalid(field)),
        },
    }
}

/// A member that may be absent or `null` but otherwise must be a list of
/// integers within `i32`.
pub open spec fn optional_i32_list(doc: Value, field: Field) -> Result<Option<Seq<i32>>, DecodeError> {
    match lookup(doc, field) {
        None => Ok(None),
        Some(m) => match i32_list_of(m) {
            Some(l) => Ok(Some(l)),
            None => if json_is_null(m) {
                Ok(None)
            } else {
                Err(DecodeError::Invalid(field))
            },
        },
    }
}

/// A document read from text: the text must be one JSON document, and the
/// document must read as `read` says.
pub open spec fn of_text<T>(text: Seq<char>, read: spec_fn(Value) -> Result<T, DecodeError>) -> Result<
    T,
    DecodeError,
> {
    match json_document(text) {
        Some(doc) => read(doc),
        None => Err(DecodeError::Syntax),
    }
}

/// Whether two texts read the same.
pub fn same_text(a: &str, b: &str) -> (r: bool)
    ensures
        r == (a@ == b@),
{
    let a = a.to_owned();
    let b = b.to_owned();
    a == b
}

/// Fetches the member under the field's key.
pub fn find<'a>(doc: &'a Value, field: Field) -> (r: Option<&'a Value>)
    ensures
        r is Some <==> lookup(*doc, field) is Some,
        r matches Some(m) ==> lookup(*doc, field) == Some(*m),
{
    member(doc, field.name())
}

/// Reads a member that must be a JSON string.
pub fn read_text(doc: &Value, field: Field) -> (r: Result<String, DecodeError>)
    ensures
        viewed(r) == required_text(*doc, field),
{
    match find(doc, field) {
        None => Err(DecodeError::Missing(field)),
        Some(m) => match text_of(m) {
            Some(s) => Ok(s.to_owned()),
            None => Err(DecodeError::Invalid(field)),
        },
    }
}

/// Reads a member that may be absent or `null` but otherwise must be a JSON
/// string.
pub fn read_optional_text(doc: &Value, field: Field) -> (r: Result<Option<String>, DecodeError>)
    ensures
        viewed_option(r) == optional_text(*doc, field),
{
    match find(doc, field) {
        None => Ok(None),
        Some(m) => match text_of(m) {
            Some(s) => Ok(Some(s.to_owned())),
            None => if is_null(m) {
                Ok(None)
            } else {
                Err(DecodeError::Invalid(field))
            },
        },
    }
}

/// Reads the document as a 32-bit integer.
pub fn to_i32(doc: &Value) -> (r: Option<i32>)
    ensures
        r == i32_of(*doc),
{
    match signed_of(doc) {
        Some(n) => if -2147483648 <= n && n <= 2147483647 {
            Some(n as i32)
        } else {
            None
        },
        None => None,
    }
}

/// Reads a member that must be an integer within `i32`.
pub fn read_i32(doc: &Value, field: Field) -> (r: Result<i32, DecodeError>)
    ensures
        r == required_i32(*doc, field),
{
    match find(doc, field) {
        None => Err(DecodeError::Missing(field)),
        Some(m) => match to_i32(m) {
            Some(n) => Ok(n),
            None => Err(DecodeError::Invalid(field)),
        },
    }
}

/// Reads a member that must be a non-negative integer within `u64`.
pub fn read_u64(doc: &Value, field: Field) -> (r: Result<u64, DecodeError>)
    ensures
        r == required_u64(*doc, field),
{
    match find(doc, field) {
        None => Err(DecodeError::Missing(field)),
        Some(m) => match unsigned_of(m) {
            Some(n) => Ok(n),
            None => Err(DecodeError::Invalid(field)),
        },
    }
}

/// Reads the document as a list of 32-bit integers.
pub fn to_i32_list(doc: &Value) -> (r: Option<Vec<i32>>)
    ensures
        r is Some <==> i32_list_of(*doc) is Some,
        r matches Some(l) ==> i32_list_of(*doc) == Some(l@),
{
    match items_of(doc) {
        None => None,
        Some(items) => {
            let mut out: Vec<i32> = Vec::new();
            let mut i: usize = 0;
            while i < items.len()
                invariant
                    json_items(*doc) == Some(items@),
                    i <= items.len(),
                    out.len() == i,
                    forall|j: int| 0 <= j < i ==> i32_of(items@[j]) == Some(#[trigger] out@[j]),
                decreases items.len() - i,
            {
                match to_i32(&items[i]) {
                    Some(n) => {
                        out.push(n);
                    },
                    None => {
                        assert(!all_i32(items@)) by {
                            assert(i32_of(items@[i as int]) is None);
                        }
                        return None;
                    },
                }
                i = i + 1;
            }
            assert(all_i32(items@)) by {
                assert forall|j: int| 0 <= j < items@.len() implies (#[trigger] i32_of(
                    items@[j],
                )) is Some by {
                    assert(i32_of(items@[j]) == Some(out@[j]));
                }
            }
            assert(out@ =~= Seq::new(items@.len(), |j: int| i32_of(items@[j]).unwrap()));
            Some(out)
        },
    }
}

/// Reads a member that must be a list of integers within `i32`.
pub fn read_i32_list(doc: &Value, field: Field) -> (r: Result<Vec<i32>, DecodeError>)
    ensures
        viewed(r) == required_i32_list(*doc, field),
{
    match find(doc, field) {
        None => Err(DecodeError::Missing(field)),
        Some(m) => match to_i32_list(m) {
            Some(l) => Ok(l),
            None => Err(DecodeError::Invalid(field)),
        },
    }
}

/// Reads a member that may be absent or `null` but otherwise must be a list
/// of integers within `i32`.
pub fn read_optional_i32_list(doc: &Value, field: Field) -> (r: Result<
    Option<Vec<i32>>,
    DecodeError,
>)
    ensures
        viewed_option(r) == optional_i32_list(*doc, field),
{
    match find(doc, field) {
        None => Ok(None),
        Some(m) => match to_i32_list(m) {
            Some(l) => Ok(Some(l)),
            None => if is_null(m) {
                Ok(None)
            } else {
                Err(DecodeError::Invalid(field))
            },
        },
    }
}

} // verus!
