//! Resolving the location recorded in a photograph to a Japanese address.
//!
//! The library holds the rules: how the location is read from the metadata
//! of an image, when a cached table of municipalities may be used, how the
//! table is read from its published source, and how the reply of the
//! reverse-geocoding service becomes an address. Files and the network are
//! the caller's business.

pub mod cmd_args;
pub mod gps_info;
pub mod municd;
pub mod reverse_geocoder;
pub mod text;
