//! A small HTTP/1.1 message model: a request parser over a character
//! cursor and a response serializer, each with a verified contract.

pub mod text;
pub mod headers;
pub mod http;
pub mod models;

pub use headers::Headers;
pub use http::{Error, HttpMethod, HttpRequest};
pub use models::response::{HttpResponse, HttpStatusCode};
pub use models::{HttpVersion, ParseRequestErr};
