//! A webring directory: site operators register a URL, an administrator
//! approves or denies it, and visitors walk the ring of approved sites.

pub mod ring;
pub mod site;
pub mod text;
