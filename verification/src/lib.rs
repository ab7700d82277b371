//! A verified gateway to a Vault-style secret server: credential storage on
//! the host plus translation of secret operations into HTTP requests and of
//! server responses into values or errors.

mod credentials;
mod json;
mod request;
mod response;
mod urls;
mod value;

pub use credentials::CredentialError;
pub use credentials::CredentialStore;
pub use credentials::account_name;
pub use credentials::get_token;
pub use credentials::save_token;
pub use credentials::service_name;
pub use json::dec_digits;
pub use json::escape_char;
pub use json::escape_string;
pub use json::int_text;
pub use json::json_text;
pub use json::quoted;
pub use json::to_json_string;
pub use request::HttpRequest;
pub use request::Method;
pub use request::RequestModel;
pub use request::fetch_secret_request;
pub use request::lemma_envelope_only_on_write;
pub use request::lemma_list_uses_list_verb;
pub use request::lemma_token_header_exact;
pub use request::list_policies_request;
pub use request::list_secrets_request;
pub use request::read_policy_request;
pub use request::save_secret_request;
pub use request::spec_fetch_secret;
pub use request::spec_list_policies;
pub use request::spec_list_secrets;
pub use request::spec_read_policy;
pub use request::spec_save_secret;
pub use request::sys_policy_path;
pub use request::token_header;
pub use request::token_header_name;
pub use response::GatewayError;
pub use response::interpret_value_response;
pub use response::interpret_write_response;
pub use response::is_success;
pub use response::message_spec;
pub use urls::request_url;
pub use urls::trim_leading_slashes;
pub use urls::trim_trailing_slashes;
pub use urls::v1_url;
pub use value::Json;
pub use value::JsonValue;
pub use value::data_key;
pub use value::fields_lookup;
pub use value::lemma_wrap_exact;
pub use value::spec_wrap;
pub use value::wrap_payload;
