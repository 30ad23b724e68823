//! Verified client core for the EnergiaPro metering API.
//!
//! The library holds everything that can be checked without doing I/O:
//! request validation, the canonical date grammar, the vendor error-code
//! table, the JSON payload model with its error classifier and the
//! installation-id fix-up, token caching with the single-refresh rule,
//! the bounded authentication-retry decision, and the plain-text table
//! renderer. A thin asynchronous shell around the library performs the
//! HTTP calls and feeds their outcomes back into the verified decision
//! functions.

mod client;
mod dates;
mod error_code;
mod errors;
mod json;
mod models;
mod requests;
mod responses;
mod scope;
mod session;
mod table;
mod text;
mod tokens;
mod transform;

pub use client::{endpoint_url, error_body_snippet, map_non_success_response, normalize_base_url, strip_utf8_bom, validate_credentials, ClientOptions, ERROR_BODY_SNIPPET_LIMIT};
pub use dates::{Date, DateInput, Sealed};
pub use error_code::ApiErrorCode;
pub use errors::EnergiaProError;
pub use json::JsonValue;
pub use models::{Installation, Measurement};
pub use requests::{AuthenticateRequest, InstallationsRequest, MeasurementsRequest};
pub use responses::{AuthenticateResponse, InstallationsResponse, MeasurementsResponse};
pub use scope::{MeasurementScope, ScopeInput};
pub use session::{begin_send_authenticate, begin_send_installations, begin_send_measurements, is_success_status, lemma_retry_exactly_once, lemma_retry_then_success, AttemptOutcome, SendFlow};
pub use table::{display_width, render_row, render_table};
pub use text::str_eq;
pub use tokens::{make_one_time_secret, prepare_authenticate, lemma_refresh_collapses, ObtainStep, Token, TokenCache, TOKEN_TTL_SECS};
pub use transform::{ensure_installation_id_on_rows, lemma_transform_idempotent};
