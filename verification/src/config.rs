//! Account records and the token that each may hold.

use vstd::prelude::*;
use serde_json::Value;
use crate::error::{AuthError, AuthErrorView};
use crate::json::{json_document, json_is_null, json_items, json_pretty};
use crate::json::{is_null, items_of, list_value, null_value, object_value, pretty_text};
use crate::json::{read_document, text_value, unsigned_value};
use crate::schema::{lemma_keys_differ, lookup, of_text, required_text, required_u64};
use crate::schema::{find, read_text, read_u64, DecodeError, Field};
use crate::views::{option_view, viewed};

verus! {

/// A token as it is kept between runs.
///
/// `expires` is a point in time, in seconds since the Unix epoch, not the
/// number of seconds that the provider gave: it compares with the clock as it
/// stands.
#[derive(Debug, PartialEq, Eq)]
pub struct Oauth2Token {
    pub token_type: String,
    pub expires: u64,
    pub access_token: String,
    pub refresh_token: String,
}

/// A token with its texts taken by their characters.
pub struct TokenView {
    pub token_type: Seq<char>,
    pub expires: u64,
    pub access_token: Seq<char>,
    pub refresh_token: Seq<char>,
}

impl View for Oauth2Token {
    type V = TokenView;

    open spec fn view(&self) -> TokenView {
        TokenView {
            token_type: self.token_type@,
            expires: self.expires,
            access_token: self.access_token@,
            refresh_token: self.refresh_token@,
        }
    }
}

impl Clone for Oauth2Token {
    fn clone(&self) -> (r: Self)
        ensures
            r == *self,
    {
        Oauth2Token {
            token_type: self.token_type.clone(),
            expires: self.expires,
            access_token: self.access_token.clone(),
            refresh_token: self.refresh_token.clone(),
        }
    }
}

/// One account at one provider: where to ask, as whom, for what, and the token
/// obtained so far, if any. A record has no token or a whole one.
#[derive(Debug, PartialEq, Eq)]
pub struct Oauth2Config {
    pub provider: String,
    pub account_name: String,
    pub app_id: String,
    pub scopes: String,
    pub device_code_endpoint: String,
    pub token_endpoint: String,
    pub token: Option<Oauth2Token>,
}

/// A record with its texts taken by their characters.
pub struct ConfigView {
    pub provider: Seq<char>,
    pub account_name: Seq<char>,
    pub app_id: Seq<char>,
    pub scopes: Seq<char>,
    pub device_code_endpoint: Seq<char>,
    pub token_endpoint: Seq<char>,
    pub token: Option<TokenView>,
}

impl View for Oauth2Config {
    type V = ConfigView;

    open spec fn view(&self) -> ConfigView {
        ConfigView {
            provider: self.provider@,
            account_name: self.account_name@,
            app_id: self.app_id@,
            scopes: self.scopes@,
            device_code_endpoint: self.device_code_endpoint@,
            token_endpoint: self.token_endpoint@,
            token: option_view(self.token),
        }
    }
}

impl Clone for Oauth2Config {
    fn clone(&self) -> (r: Self)
        ensures
            r == *self,
    {
        let token = match &self.token {
            Some(t) => Some(t.clone()),
            None => None,
        };
        Oauth2Config {
            provider: self.provider.clone(),
            account_name: self.account_name.clone(),
            app_id: self.app_id.clone(),
            scopes: self.scopes.clone(),
            device_code_endpoint: self.device_code_endpoint.clone(),
            token_endpoint: self.token_endpoint.clone(),
            token,
        }
    }
}

/// The views of a collection of records, in order.
pub open spec fn records_view(records: Seq<Oauth2Config>) -> Seq<ConfigView> {
    Seq::new(records.len(), |i: int| records[i]@)
}

/// The token that a document holds. Members are read in the order of the
/// struct's fields, and the first that fails decides the error.
pub open spec fn token_of(doc: Value) -> Result<TokenView, DecodeError> {
    match required_text(doc, Field::TokenType) {
        Err(e) => Err(e),
        Ok(token_type) => match required_u64(doc, Field::Expires) {
            Err(e) => Err(e),
            Ok(expires) => match required_text(doc, Field::AccessToken) {
                Err(e) => Err(e),
                Ok(access_token) => match required_text(doc, Field::RefreshToken) {
                    Err(e) => Err(e),
                    Ok(refresh_token) => Ok(
                        TokenView { token_type, expires, access_token, refresh_token },
                    ),
                },
            },
        },
    }
}

/// The token of a record's document: none where the member `token` is missing
/// or `null`, else what that member holds.
pub open spec fn record_token_of(doc: Value) -> Result<Option<TokenView>, DecodeError> {
    match lookup(doc, Field::Token) {
        None => Ok(None),
        Some(m) => if json_is_null(m) {
            Ok(None)
        } else {
            match token_of(m) {
                Ok(t) => Ok(Some(t)),
                Err(e) => Err(e),
            }
        },
    }
}

/// The record that a document holds. Members are read in the order of the
/// struct's fields, and the first that fails decides the error.
pub open spec fn record_of(doc: Value) -> Result<ConfigView, DecodeError> {
    match required_text(doc, Field::Provider) {
        Err(e) => Err(e),
        Ok(provider) => match required_text(doc, Field::AccountName) {
            Err(e) => Err(e),
            Ok(account_name) => match required_text(doc, Field::AppId) {
                Err(e) => Err(e),
                Ok(app_id) => match required_text(doc, Field::Scopes) {
                    Err(e) => Err(e),
                    Ok(scopes) => match required_text(doc, Field::DeviceCodeEndpoint) {
                        Err(e) => Err(e),
                        Ok(device_code_endpoint) => match required_text(doc, Field::TokenEndpoint) {
                            Err(e) => Err(e),
                            Ok(token_endpoint) => match record_token_of(doc) {
                                Err(e) => Err(e),
                                Ok(token) => Ok(
                                    ConfigView {
                                        provider,
                                        account_name,
                                        app_id,
                                        scopes,
                                        device_code_endpoint,
                                        token_endpoint,
                                        token,
                                    },
                                ),
                            },
                        },
                    },
                },
            },
        },
    }
}

/// The records that a list of documents holds, in order. The first document
/// that does not hold a record decides the error.
pub open spec fn records_of(items: Seq<Value>) -> Result<Seq<ConfigView>, DecodeError>
    decreases items.len(),
{
    if items.len() == 0 {
        Ok(Seq::empty())
    } else {
        match records_of(items.drop_last()) {
            Err(e) => Err(e),
            Ok(before) => match record_of(items.last()) {
                Err(e) => Err(e),
                Ok(record) => Ok(before.push(record)),
            },
        }
    }
}

/// The records that a document holds: it has to be a list of records.
pub open spec fn store_of(doc: Value) -> Result<Seq<ConfigView>, DecodeError> {
    match json_items(doc) {
        Some(items) => records_of(items),
        None => Err(DecodeError::NotAList),
    }
}

/// What `decode_store` hands back, with the records taken by their views.
pub open spec fn store_view(r: Result<Vec<Oauth2Config>, DecodeError>) -> Result<
    Seq<ConfigView>,
    DecodeError,
> {
    match r {
        Ok(records) => Ok(records_view(records@)),
        Err(e) => Err(e),
    }
}

/// An error among the first documents of a list is the error of the list.
pub proof fn lemma_error_stays(items: Seq<Value>, n: int)
    requires
        0 <= n <= items.len(),
        records_of(items.take(n)) is Err,
    ensures
        records_of(items) == records_of(items.take(n)),
    decreases items.len() - n,
{
    if n == items.len() {
        assert(items.take(n) =~= items);
    } else {
        assert(items.take(n + 1).drop_last() =~= items.take(n));
        lemma_error_stays(items, n + 1);
    }
}

/// A list of documents that hold a record each holds those records.
pub proof fn lemma_records_one_by_one(items: Seq<Value>, records: Seq<ConfigView>)
    requires
        items.len() == records.len(),
        forall|i: int| 0 <= i < items.len() ==> record_of(#[trigger] items[i]) == Ok::<
            ConfigView,
            DecodeError,
        >(records[i]),
    ensures
        records_of(items) == Ok::<Seq<ConfigView>, DecodeError>(records),
    decreases items.len(),
{
    if items.len() == 0 {
        assert(records =~= Seq::empty());
    } else {
        lemma_records_one_by_one(items.drop_last(), records.drop_last());
        assert(record_of(items.last()) == Ok::<ConfigView, DecodeError>(records.last()));
        assert(records.drop_last().push(records.last()) =~= records);
    }
}

impl Oauth2Token {
    /// Reads the value that a document holds.
    pub fn decode(doc: &Value) -> (r: Result<Self, DecodeError>)
        ensures
            viewed(r) == token_of(*doc),
    {
        let token_type = read_text(doc, Field::TokenType)?;
        let expires = read_u64(doc, Field::Expires)?;
        let access_token = read_text(doc, Field::AccessToken)?;
        let refresh_token = read_text(doc, Field::RefreshToken)?;
        Ok(Oauth2Token { token_type, expires, access_token, refresh_token })
    }

    /// The document that holds this token.
    pub fn to_document(&self) -> (v: Value)
        ensures
            token_of(v) == Ok::<TokenView, DecodeError>(self@),
            !json_is_null(v),
    {
        let mut members: Vec<(String, Value)> = Vec::new();
        members.push((Field::TokenType.name().to_owned(), text_value(self.token_type.as_str())));
        members.push((Field::Expires.name().to_owned(), unsigned_value(self.expires)));
        members.push(
            (Field::AccessToken.name().to_owned(), text_value(self.access_token.as_str())),
        );
        members.push(
            (Field::RefreshToken.name().to_owned(), text_value(self.refresh_token.as_str())),
        );
        proof {
            assert forall|f: Field, g: Field| f != g implies f.key() != g.key() by {
                lemma_keys_differ(f, g);
            }
        }
        let ghost listed = members@;
        let v = object_value(members);
        proof {
            assert(listed[0].0@ == Field::TokenType.key());
            assert(listed[1].0@ == Field::Expires.key());
            assert(listed[2].0@ == Field::AccessToken.key());
            assert(listed[3].0@ == Field::RefreshToken.key());
        }
        v
    }
}

impl Oauth2Config {
    /// Reads the value that a document holds.
    pub fn decode(doc: &Value) -> (r: Result<Self, DecodeError>)
        ensures
            viewed(r) == record_of(*doc),
    {
        let provider = read_text(doc, Field::Provider)?;
        let account_name = read_text(doc, Field::AccountName)?;
        let app_id = read_text(doc, Field::AppId)?;
        let scopes = read_text(doc, Field::Scopes)?;
        let device_code_endpoint = read_text(doc, Field::DeviceCodeEndpoint)?;
        let token_endpoint = read_text(doc, Field::TokenEndpoint)?;
        let token = match find(doc, Field::Token) {
            None => None,
            Some(m) => if is_null(m) {
                None
            } else {
                Some(Oauth2Token::decode(m)?)
            },
        };
        Ok(
            Oauth2Config {
                provider,
                account_name,
                app_id,
                scopes,
                device_code_endpoint,
                token_endpoint,
                token,
            },
        )
    }

    /// The document that holds this record. A record without a token has the
    /// member `token` set to `null`.
    pub fn to_document(&self) -> (v: Value)
        ensures
            record_of(v) == Ok::<ConfigView, DecodeError>(self@),
    {
        let token = match &self.token {
            Some(t) => t.to_document(),
            None => null_value(),
        };
        let mut members: Vec<(String, Value)> = Vec::new();
        members.push((Field::Provider.name().to_owned(), text_value(self.provider.as_str())));
        members.push(
            (Field::AccountName.name().to_owned(), text_value(self.account_name.as_str())),
        );
        members.push((Field::AppId.name().to_owned(), text_value(self.app_id.as_str())));
        members.push((Field::Scopes.name().to_owned(), text_value(self.scopes.as_str())));
        members.push(
            (
                Field::DeviceCodeEndpoint.name().to_owned(),
                text_value(self.device_code_endpoint.as_str()),
            ),
        );
        members.push(
            (Field::TokenEndpoint.name().to_owned(), text_value(self.token_endpoint.as_str())),
        );
        members.push((Field::Token.name().to_owned(), token));
        proof {
            assert forall|f: Field, g: Field| f != g implies f.key() != g.key() by {
                lemma_keys_differ(f, g);
            }
        }
        let ghost listed = members@;
        let v = object_value(members);
        proof {
            assert(listed[0].0@ == Field::Provider.key());
            assert(listed[1].0@ == Field::AccountName.key());
            assert(listed[2].0@ == Field::AppId.key());
            assert(listed[3].0@ == Field::Scopes.key());
            assert(listed[4].0@ == Field::DeviceCodeEndpoint.key());
            assert(listed[5].0@ == Field::TokenEndpoint.key());
            assert(listed[6].0@ == Field::Token.key());
        }
        v
    }
}

/// Reads the records that a document holds.
pub fn decode_store(doc: &Value) -> (r: Result<Vec<Oauth2Config>, DecodeError>)
    ensures
        store_view(r) == store_of(*doc),
{
    let items = match items_of(doc) {
        Some(items) => items,
        None => {
            return Err(DecodeError::NotAList);
        },
    };
    let mut records: Vec<Oauth2Config> = Vec::new();
    let mut i: usize = 0;
    assert(records_view(records@) =~= Seq::empty());
    while i < items.len()
        invariant
            json_items(*doc) == Some(items@),
            i <= items.len(),
            records.len() == i,
            records_of(items@.take(i as int)) == Ok::<Seq<ConfigView>, DecodeError>(
                records_view(records@),
            ),
        decreases items.len() - i,
    {
        proof {
            assert(items@.take(i + 1).drop_last() =~= items@.take(i as int));
        }
        let ghost before = records_view(records@);
        match Oauth2Config::decode(&items[i]) {
            Ok(record) => {
                records.push(record);
                assert(records_view(records@) =~= before.push(record@));
            },
            Err(e) => {
                proof {
                    lemma_error_stays(items@, i + 1);
                }
                return Err(e);
            },
        }
        i = i + 1;
    }
    assert(items@.take(i as int) =~= items@);
    Ok(records)
}

/// The records that the text of a configuration holds, or
/// `ConfigParseError` with the reason why it holds none.
pub open spec fn configuration_of(contents: Seq<char>) -> Result<Seq<ConfigView>, AuthErrorView> {
    match of_text(contents, |doc: Value| store_of(doc)) {
        Ok(records) => Ok(records),
        Err(e) => Err(AuthErrorView::ConfigParseError(e)),
    }
}

/// What `parse` hands back, with records and error taken by their views.
pub open spec fn configuration_view(r: Result<Vec<Oauth2Config>, AuthError>) -> Result<
    Seq<ConfigView>,
    AuthErrorView,
> {
    match r {
        Ok(records) => Ok(records_view(records@)),
        Err(e) => Err(e@),
    }
}

/// Reads the configuration: the text of a JSON document that is a list of
/// records.
pub fn parse(contents: &str) -> (r: Result<Vec<Oauth2Config>, AuthError>)
    ensures
        configuration_view(r) == configuration_of(contents@),
{
    let read = match read_document(contents) {
        Some(doc) => decode_store(&doc),
        None => Err(DecodeError::Syntax),
    };
    match read {
        Ok(records) => Ok(records),
        Err(e) => Err(AuthError::ConfigParseError(e)),
    }
}

/// The document that holds these records, in order. Reading it gives the
/// records back, field for field.
pub fn to_document(records: &Vec<Oauth2Config>) -> (v: Value)
    ensures
        store_of(v) == Ok::<Seq<ConfigView>, DecodeError>(records_view(records@)),
{
    let mut items: Vec<Value> = Vec::new();
    let mut i: usize = 0;
    while i < records.len()
        invariant
            i <= records.len(),
            items.len() == i,
            forall|j: int| 0 <= j < i ==> record_of(#[trigger] items@[j]) == Ok::<
                ConfigView,
                DecodeError,
            >(records@[j]@),
        decreases records.len() - i,
    {
        items.push(records[i].to_document());
        i = i + 1;
    }
    proof {
        lemma_records_one_by_one(items@, records_view(records@));
    }
    list_value(items)
}

/// Where `serde_json` reads a text back as the very document for which it
/// wrote that text, the configuration read from the text is the records that
/// the document holds.
pub proof fn lemma_document_read_back_holds_the_records(
    records: Seq<ConfigView>,
    doc: Value,
    text: Seq<char>,
)
    requires
        store_of(doc) == Ok::<Seq<ConfigView>, DecodeError>(records),
        json_pretty(doc) == Some(text),
        json_document(text) == Some(doc),
    ensures
        configuration_of(text) == Ok::<Seq<ConfigView>, AuthErrorView>(records),
{
}

/// Writes the configuration as text, with line breaks and indentation.
///
/// The text is what `serde_json` writes for a document that holds exactly
/// these records; there is none where `serde_json` reports an error.
pub fn to_json(records: &Vec<Oauth2Config>) -> (r: Option<String>)
    ensures
        exists|v: Value|
            #[trigger] store_of(v) == Ok::<Seq<ConfigView>, DecodeError>(records_view(records@))
                && option_view(r) == json_pretty(v),
{
    let v = to_document(records);
    pretty_text(&v)
}

} // verus!
