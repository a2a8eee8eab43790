//! A minimal cryptographic identity library: public keys derived from
//! private scalars on a prime-order curve group, converted to and from their
//! canonical byte and base58 representations with strict validation, and the
//! configuration of the HTTP client that carries them.

pub mod http_client;
pub mod scalar;
