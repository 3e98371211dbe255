//! The control plane's logic: the Cloudflare calls it makes and the signup
//! it runs.

pub mod cloudflare;
pub mod signup;
