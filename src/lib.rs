//! Client-side record handling for a user collection kept in a remote
//! document store: decoding of the store's JSON bodies into typed records.

mod console;
mod json;
mod records;
mod store;

pub use console::clear_console_code;
pub use json::{
    entries_of, field, items_of, json_accepts, json_of, nests_within, read_json, DecodeError, Json,
    JsonModel, MAX_DEPTH,
};
pub use records::{
    response_from_json, stored_user_from_json, string_to_response, string_to_stored_user,
    string_to_user, string_to_users,
    user_from_json, users_from_json, Response, User, UserModel, USERS_PATH,
};
pub use store::{
    lemma_created_user_listed, lemma_email_patch_keeps_other_fields, lemma_field_merged,
    lemma_update_reflected, lemma_written_user_reads_back, merged, written_user, Entries,
};
