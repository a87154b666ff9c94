//! Single sign-on against a CAS-style identity provider, as a set of verified
//! decisions: the caller performs the HTTP requests, this library says which
//! request comes next and what each response means.

pub mod text;
pub mod json;
pub mod http;
pub mod redirect;
pub mod html;
pub mod tokens;
pub mod credential;
pub mod mfa;
pub mod login;
pub mod course;
