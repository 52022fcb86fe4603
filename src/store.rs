//! What the store does with the bodies it is sent, as far as reading back
//! depends on it, and the laws that tie it to the decoders.
use vstd::prelude::*;
use crate::json::{field, JsonModel};
use crate::records::{
    text_of, user_model, user_of_entries, users_model, UserModel,
};

verus! {

/// The entries of an object, as key and value.
pub type Entries = Seq<(Seq<char>, JsonModel)>;

/// The stored entries, each one whose key the patch has taking the patch's
/// value.
pub open spec fn replaced(stored: Entries, patch: Entries) -> Entries
    decreases stored.len(),
{
    if stored.len() == 0 {
        Seq::empty()
    } else {
        let e = stored[0];
        let head = match field(patch, e.0) {
            Some(v) => (e.0, v),
            None => e,
        };
        seq![head] + replaced(stored.drop_first(), patch)
    }
}

/// The patch's entries under keys that the stored object lacks.
pub open spec fn added(stored: Entries, patch: Entries) -> Entries
    decreases patch.len(),
{
    if patch.len() == 0 {
        Seq::empty()
    } else if field(stored, patch[0].0) is Some {
        added(stored, patch.drop_first())
    } else {
        seq![patch[0]] + added(stored, patch.drop_first())
    }
}

/// A merge update of a stored object: the entries that the patch names are
/// overwritten or added, all others are left as they were.
pub open spec fn merged(stored: Entries, patch: Entries) -> Entries {
    replaced(stored, patch) + added(stored, patch)
}

/// Looking a key up in two runs of entries finds it in the first run if it
/// is there.
proof fn lemma_field_concat(a: Entries, b: Entries, k: Seq<char>)
    ensures
        field(a + b, k) == (if field(a, k) is Some {
            field(a, k)
        } else {
            field(b, k)
        }),
    decreases a.len(),
{
    if a.len() == 0 {
        assert(a + b =~= b);
    } else {
        assert((a + b).drop_first() =~= a.drop_first() + b);
        lemma_field_concat(a.drop_first(), b, k);
    }
}

proof fn lemma_field_replaced(s: Entries, p: Entries, k: Seq<char>)
    ensures
        field(replaced(s, p), k) == (if field(s, k) is Some && field(p, k) is Some {
            field(p, k)
        } else {
            field(s, k)
        }),
    decreases s.len(),
{
    if s.len() > 0 {
        lemma_field_replaced(s.drop_first(), p, k);
        let head = match field(p, s[0].0) {
            Some(v) => (s[0].0, v),
            None => s[0],
        };
        assert((seq![head] + replaced(s.drop_first(), p))[0] == head);
        assert((seq![head] + replaced(s.drop_first(), p)).drop_first() =~= replaced(
            s.drop_first(),
            p,
        ));
    }
}

proof fn lemma_field_added(s: Entries, p: Entries, k: Seq<char>)
    ensures
        field(added(s, p), k) == (if field(s, k) is None {
            field(p, k)
        } else {
            None
        }),
    decreases p.len(),
{
    if p.len() > 0 {
        lemma_field_added(s, p.drop_first(), k);
        if field(s, p[0].0) is None {
            assert((seq![p[0]] + added(s, p.drop_first()))[0] == p[0]);
            assert((seq![p[0]] + added(s, p.drop_first())).drop_first() =~= added(
                s,
                p.drop_first(),
            ));
        }
    }
}

/// After a merge update, a key holds the patch's value if the patch names it,
/// and its stored value otherwise.
pub proof fn lemma_field_merged(s: Entries, p: Entries, k: Seq<char>)
    ensures
        field(merged(s, p), k) == (if field(p, k) is Some {
            field(p, k)
        } else {
            field(s, k)
        }),
{
    lemma_field_concat(replaced(s, p), added(s, p), k);
    lemma_field_replaced(s, p, k);
    lemma_field_added(s, p, k);
}

/// Updating a stored user with the whole record, its email changed, reads
/// back as that record: the new email, the stored name and age.
pub proof fn lemma_update_reflected(
    stored: Entries,
    patch: Entries,
    u: UserModel,
    email: Seq<char>,
)
    requires
        user_of_entries(stored) == Some(u),
        user_of_entries(patch) == Some(UserModel { email, ..u }),
    ensures
        user_of_entries(merged(stored, patch)) == Some(UserModel { name: u.name, age: u.age, email }),
{
    lemma_field_merged(stored, patch, "name"@);
    lemma_field_merged(stored, patch, "age"@);
    lemma_field_merged(stored, patch, "email"@);
}

/// Updating a stored user with its email alone changes the email and leaves
/// the name and age as they were stored.
pub proof fn lemma_email_patch_keeps_other_fields(
    stored: Entries,
    patch: Entries,
    u: UserModel,
    email: Seq<char>,
)
    requires
        user_of_entries(stored) == Some(u),
        text_of(field(patch, "email"@)) == Some(email),
        field(patch, "name"@) is None,
        field(patch, "age"@) is None,
    ensures
        user_of_entries(merged(stored, patch)) == Some(UserModel { name: u.name, age: u.age, email }),
{
    lemma_field_merged(stored, patch, "name"@);
    lemma_field_merged(stored, patch, "age"@);
    lemma_field_merged(stored, patch, "email"@);
}

/// The entries the store keeps for a created user: `age`, `email` and
/// `name`, in the key order of serde_json's map, which the record was sent as.
pub open spec fn written_user(f: Entries, u: UserModel) -> bool {
    &&& f.len() == 3
    &&& f[0].0 == "age"@ && f[0].1 == JsonModel::Number(Some(u.age as u64))
    &&& f[1].0 == "email"@ && f[1].1 == JsonModel::Str(u.email)
    &&& f[2].0 == "name"@ && f[2].1 == JsonModel::Str(u.name)
}

/// A created user reads back as itself.
pub proof fn lemma_written_user_reads_back(f: Entries, u: UserModel)
    requires
        written_user(f, u),
    ensures
        user_of_entries(f) == Some(u),
{
    reveal_strlit("age");
    reveal_strlit("email");
    reveal_strlit("name");
    assert("age"@ != "name"@ && "age"@ != "email"@ && "email"@ != "name"@) by {
        assert("age"@[0] != "name"@[0]);
        assert("age"@[0] != "email"@[0]);
        assert("email"@[0] != "name"@[0]);
    }
    reveal_with_fuel(field, 4);
    assert(f.drop_first().drop_first().drop_first().len() == 0);
    assert(f.drop_first()[0] == f[1]);
    assert(f.drop_first().drop_first()[0] == f[2]);
}

/// A created user, stored under the key the store gave it, is listed under
/// that key with its fields when the collection is read back.
pub proof fn lemma_created_user_listed(
    coll: Entries,
    i: int,
    f: Entries,
    u: UserModel,
)
    requires
        0 <= i < coll.len(),
        coll[i].1 == JsonModel::Object(f),
        written_user(f, u),
    ensures
        user_model(coll[i].1) == Some(u),
        users_model(JsonModel::Object(coll)) is Some ==> users_model(
            JsonModel::Object(coll),
        ).unwrap()[i] == (coll[i].0, u),
{
    lemma_written_user_reads_back(f, u);
}

} // verus!
