pub mod dns;
pub mod domain;
pub mod dyndns;
pub mod forwards;
pub mod invoices;
