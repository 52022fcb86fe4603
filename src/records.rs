use vstd::prelude::*;
use vstd::string::*;
use crate::json::{
    entries_of, field, find_field, items_of, json_accepts, json_of, read_json, DecodeError, Json, JsonModel,
};

verus! {

/// The path of the collection that holds the users.
pub const USERS_PATH: &'static str = "users";

/// A user record as the collection stores it.
#[derive(Debug)]
pub struct User {
    pub name: String,
    pub age: u32,
    pub email: String,
}

/// What the store answers to a create: the key it gave the new record.
#[derive(Debug)]
pub struct Response {
    pub name: String,
}

/// The fields of a user record.
pub struct UserModel {
    pub name: Seq<char>,
    pub age: u32,
    pub email: Seq<char>,
}

impl View for User {
    type V = UserModel;

    open spec fn view(&self) -> UserModel {
        UserModel { name: self.name@, age: self.age, email: self.email@ }
    }
}

impl View for Response {
    type V = Seq<char>;

    open spec fn view(&self) -> Seq<char> {
        self.name@
    }
}

/// The text of a JSON string.
pub open spec fn text_of(j: Option<JsonModel>) -> Option<Seq<char>> {
    match j {
        Some(JsonModel::Str(s)) => Some(s),
        _ => None,
    }
}

/// The value of a JSON number that is an integer in `u32`'s range.
pub open spec fn u32_of(j: Option<JsonModel>) -> Option<u32> {
    match j {
        Some(JsonModel::Number(Some(n))) => if n <= u32::MAX {
            Some(n as u32)
        } else {
            None
        },
        _ => None,
    }
}

/// A user from its three parts, when all are there.
pub open spec fn user_of_parts(
    name: Option<Seq<char>>,
    age: Option<u32>,
    email: Option<Seq<char>>,
) -> Option<UserModel> {
    if name is Some && age is Some && email is Some {
        Some(UserModel { name: name.unwrap(), age: age.unwrap(), email: email.unwrap() })
    } else {
        None
    }
}

/// The user an object's entries describe: a string under `name`, an integer
/// in `u32`'s range under `age` and a string under `email`.
pub open spec fn user_of_entries(f: Seq<(Seq<char>, JsonModel)>) -> Option<UserModel> {
    user_of_parts(
        text_of(field(f, "name"@)),
        u32_of(field(f, "age"@)),
        text_of(field(f, "email"@)),
    )
}

/// The user a document describes: an object with a string `name`, an
/// integer `age` in `u32`'s range and a string `email` (other entries are
/// ignored), or an array of exactly those three values in that order.
pub open spec fn user_model(j: JsonModel) -> Option<UserModel> {
    match j {
        JsonModel::Object(f) => user_of_entries(f),
        JsonModel::Array(items) => if items.len() == 3 {
            user_of_parts(text_of(Some(items[0])), u32_of(Some(items[1])), text_of(Some(items[2])))
        } else {
            None
        },
        _ => None,
    }
}

/// The key a create answer carries: an object with a string `name`, or an
/// array of exactly that one string.
pub open spec fn response_model(j: JsonModel) -> Option<Seq<char>> {
    match j {
        JsonModel::Object(f) => text_of(field(f, "name"@)),
        JsonModel::Array(items) => if items.len() == 1 {
            text_of(Some(items[0]))
        } else {
            None
        },
        _ => None,
    }
}

/// A single record read back: `null` when nothing is stored under the key.
pub open spec fn stored_user_model(j: JsonModel) -> Option<Option<UserModel>> {
    match j {
        JsonModel::Null => Some(None),
        _ => match user_model(j) {
            Some(u) => Some(Some(u)),
            None => None,
        },
    }
}

/// Every entry of an object is a user.
pub open spec fn all_users(f: Seq<(Seq<char>, JsonModel)>) -> bool {
    forall|i: int| 0 <= i < f.len() ==> (#[trigger] user_model(f[i].1)) is Some
}

/// The entries of an object of users, as key and user, in order.
pub open spec fn user_entries(f: Seq<(Seq<char>, JsonModel)>) -> Seq<(Seq<char>, UserModel)> {
    f.map_values(|e: (Seq<char>, JsonModel)| (e.0, user_model(e.1).unwrap()))
}

/// The whole collection read back: an object from key to user, or `null`
/// when the collection is empty.
pub open spec fn users_model(j: JsonModel) -> Option<Seq<(Seq<char>, UserModel)>> {
    match j {
        JsonModel::Null => Some(Seq::empty()),
        JsonModel::Object(f) => if all_users(f) {
            Some(user_entries(f))
        } else {
            None
        },
        _ => None,
    }
}

/// Key and user of each entry.
pub open spec fn entries_view(v: Seq<(String, User)>) -> Seq<(Seq<char>, UserModel)> {
    v.map_values(|e: (String, User)| (e.0@, e.1@))
}

/// The view of an optional string.
pub open spec fn view_text(o: Option<String>) -> Option<Seq<char>> {
    match o {
        Some(s) => Some(s@),
        None => None,
    }
}

fn text_value(j: &Json) -> (r: Option<String>)
    ensures
        match r {
            Some(s) => text_of(Some(j@)) == Some(s@),
            None => text_of(Some(j@)) is None,
        },
{
    match j {
        Json::Str(s) => Some(s.clone()),
        _ => None,
    }
}

fn u32_value(j: &Json) -> (r: Option<u32>)
    ensures
        r == u32_of(Some(j@)),
{
    match j {
        Json::Number(Some(n)) => if *n <= u32::MAX as u64 {
            Some(*n as u32)
        } else {
            None
        },
        _ => None,
    }
}

fn text_field(fields: &Vec<(String, Json)>, key: &String) -> (r: Option<String>)
    ensures
        match r {
            Some(s) => text_of(field(entries_of(*fields), key@)) == Some(s@),
            None => text_of(field(entries_of(*fields), key@)) is None,
        },
{
    match find_field(fields, key) {
        Some(j) => text_value(j),
        None => None,
    }
}

fn u32_field(fields: &Vec<(String, Json)>, key: &String) -> (r: Option<u32>)
    ensures
        r == u32_of(field(entries_of(*fields), key@)),
{
    match find_field(fields, key) {
        Some(j) => u32_value(j),
        None => None,
    }
}

fn user_from_parts(name: Option<String>, age: Option<u32>, email: Option<String>) -> (r: Result<
    User,
    DecodeError,
>)
    ensures
        match r {
            Ok(u) => user_of_parts(
                view_text(name),
                age,
                view_text(email),
            ) == Some(u@),
            Err(e) => e == DecodeError::Shape && user_of_parts(
                view_text(name),
                age,
                view_text(email),
            ) is None,
        },
{
    match (name, age, email) {
        (Some(name), Some(age), Some(email)) => Ok(User { name, age, email }),
        _ => Err(DecodeError::Shape),
    }
}

/// Reads a user from a document; fails with `Shape` exactly when the
/// document does not describe one.
pub fn user_from_json(j: &Json) -> (r: Result<User, DecodeError>)
    ensures
        match r {
            Ok(u) => user_model(j@) == Some(u@),
            Err(e) => e == DecodeError::Shape && user_model(j@) is None,
        },
{
    match j {
        Json::Object(f) => {
            let name = text_field(f, &String::from_str("name"));
            let age = u32_field(f, &String::from_str("age"));
            let email = text_field(f, &String::from_str("email"));
            user_from_parts(name, age, email)
        },
        Json::Array(items) => {
            if items.len() == 3 {
                assert(items_of(*items).len() == 3);
                assert(items_of(*items)[0] == items@[0]@ && items_of(*items)[1] == items@[1]@
                    && items_of(*items)[2] == items@[2]@);
                user_from_parts(text_value(&items[0]), u32_value(&items[1]), text_value(&items[2]))
            } else {
                assert(items_of(*items).len() == items@.len());
                Err(DecodeError::Shape)
            }
        },
        _ => Err(DecodeError::Shape),
    }
}

/// Reads the answer to a create; fails with `Shape` exactly when the
/// document carries no key.
pub fn response_from_json(j: &Json) -> (r: Result<Response, DecodeError>)
    ensures
        match r {
            Ok(resp) => response_model(j@) == Some(resp@),
            Err(e) => e == DecodeError::Shape && response_model(j@) is None,
        },
{
    let name = match j {
        Json::Object(f) => text_field(f, &String::from_str("name")),
        Json::Array(items) => if items.len() == 1 {
            assert(items_of(*items).len() == 1);
            assert(items_of(*items)[0] == items@[0]@);
            text_value(&items[0])
        } else {
            assert(items_of(*items).len() == items@.len());
            None
        },
        _ => None,
    };
    match name {
        Some(name) => Ok(Response { name }),
        None => Err(DecodeError::Shape),
    }
}

/// Reads a single record back: `Ok(None)` for `null`, which the store
/// answers when nothing is stored under the key.
pub fn stored_user_from_json(j: &Json) -> (r: Result<Option<User>, DecodeError>)
    ensures
        match r {
            Ok(Some(u)) => stored_user_model(j@) == Some(Some(u@)),
            Ok(None) => stored_user_model(j@) == Some(None::<UserModel>),
            Err(e) => e == DecodeError::Shape && stored_user_model(j@) is None,
        },
        *j is Null ==> r == Ok::<Option<User>, DecodeError>(None),
{
    match j {
        Json::Null => Ok(None),
        _ => match user_from_json(j) {
            Ok(u) => Ok(Some(u)),
            Err(e) => Err(e),
        },
    }
}

/// Reads the whole collection: each entry of the object as key and user, in
/// order; no entries for `null`, which the store answers for an empty
/// collection. Fails with `Shape` exactly when some entry is not a user or the
/// document is neither an object nor `null`.
pub fn users_from_json(j: &Json) -> (r: Result<Vec<(String, User)>, DecodeError>)
    ensures
        match r {
            Ok(v) => users_model(j@) == Some(entries_view(v@)),
            Err(e) => e == DecodeError::Shape && users_model(j@) is None,
        },
        *j is Null ==> (r matches Ok(v) && v@.len() == 0),
{
    match j {
        Json::Null => {
            let out: Vec<(String, User)> = Vec::new();
            assert(entries_view(out@) =~= Seq::empty());
            Ok(out)
        },
        Json::Object(f) => {
            let ghost e = entries_of(*f);
            let n = f.len();
            let mut out: Vec<(String, User)> = Vec::new();
            let mut i: usize = 0;
            while i < n
                invariant
                    j@ == JsonModel::Object(e),
                    n == f@.len(),
                    e.len() == n,
                    forall|k: int| 0 <= k < n ==> #[trigger] e[k] == (f@[k].0@, f@[k].1@),
                    i <= n,
                    out@.len() == i,
                    forall|k: int| 0 <= k < i ==> (#[trigger] user_model(e[k].1)) is Some,
                    entries_view(out@) =~= user_entries(e.subrange(0, i as int)),
                decreases n - i,
            {
                match user_from_json(&f[i].1) {
                    Ok(u) => {
                        let key = f[i].0.clone();
                        let ghost before = out@;
                        out.push((key, u));
                        assert(out@ =~= before.push((key, u)));
                        assert(e.subrange(0, i + 1) =~= e.subrange(0, i as int).push(e[i as int]));
                        assert forall|k: int| 0 <= k < i implies entries_view(out@)[k]
                            == user_entries(e.subrange(0, i + 1))[k] by {
                            assert(entries_view(before)[k] == user_entries(
                                e.subrange(0, i as int),
                            )[k]);
                        }
                        assert(entries_view(out@) =~= user_entries(e.subrange(0, i + 1)));
                    },
                    Err(err) => {
                        assert(user_model(e[i as int].1) is None);
                        assert(!all_users(e));
                        return Err(err);
                    },
                }
                i = i + 1;
            }
            assert(e.subrange(0, n as int) =~= e);
            Ok(out)
        },
        _ => Err(DecodeError::Shape),
    }
}

/// Reads a user from a body: `Syntax` exactly when serde_json refuses the
/// text, otherwise the user that the parsed document describes, or `Shape`
/// when it describes none.
pub fn string_to_user(s: &str) -> (r: Result<User, DecodeError>)
    ensures
        !json_accepts(s@) ==> r == Err::<User, DecodeError>(DecodeError::Syntax),
        json_accepts(s@) ==> match r {
            Ok(u) => user_model(json_of(s@)) == Some(u@),
            Err(e) => e == DecodeError::Shape && user_model(json_of(s@)) is None,
        },
{
    match read_json(s) {
        Ok(j) => user_from_json(&j),
        Err(e) => Err(e),
    }
}

/// Reads the answer to a create from a body: `Syntax` exactly when
/// serde_json refuses the text, otherwise the key that the parsed document
/// carries, or `Shape` when it carries none.
pub fn string_to_response(s: &str) -> (r: Result<Response, DecodeError>)
    ensures
        !json_accepts(s@) ==> r == Err::<Response, DecodeError>(DecodeError::Syntax),
        json_accepts(s@) ==> match r {
            Ok(resp) => response_model(json_of(s@)) == Some(resp@),
            Err(e) => e == DecodeError::Shape && response_model(json_of(s@)) is None,
        },
{
    match read_json(s) {
        Ok(j) => response_from_json(&j),
        Err(e) => Err(e),
    }
}

/// Reads a single record back from a body: `Syntax` exactly when serde_json
/// refuses the text, `Ok(None)` for `null`, otherwise the user that the parsed
/// document describes, or `Shape` when it describes none.
pub fn string_to_stored_user(s: &str) -> (r: Result<Option<User>, DecodeError>)
    ensures
        !json_accepts(s@) ==> r == Err::<Option<User>, DecodeError>(DecodeError::Syntax),
        json_accepts(s@) ==> match r {
            Ok(Some(u)) => stored_user_model(json_of(s@)) == Some(Some(u@)),
            Ok(None) => stored_user_model(json_of(s@)) == Some(None::<UserModel>),
            Err(e) => e == DecodeError::Shape && stored_user_model(json_of(s@)) is None,
        },
{
    match read_json(s) {
        Ok(j) => stored_user_from_json(&j),
        Err(e) => Err(e),
    }
}

/// Reads the whole collection from a body: `Syntax` exactly when serde_json
/// refuses the text, otherwise the entries of the parsed document as key and
/// user, or `Shape` when it is not a collection of users.
pub fn string_to_users(s: &str) -> (r: Result<Vec<(String, User)>, DecodeError>)
    ensures
        !json_accepts(s@) ==> r == Err::<Vec<(String, User)>, DecodeError>(DecodeError::Syntax),
        json_accepts(s@) ==> match r {
            Ok(v) => users_model(json_of(s@)) == Some(entries_view(v@)),
            Err(e) => e == DecodeError::Shape && users_model(json_of(s@)) is None,
        },
{
    match read_json(s) {
        Ok(j) => users_from_json(&j),
        Err(e) => Err(e),
    }
}

} // verus!
