//! Dulac My Camp — the booking, privacy and content rules behind the camp's
//! web service, each stated as a contract and proved.

pub mod error;
pub mod dates;
pub mod text;
pub mod rate_limit;
pub mod holidays;
pub mod users;
pub mod checkin_info;
pub mod content_access;
pub mod journal;
pub mod checkout;
pub mod my_stay;
pub mod site_content;
pub mod solunar;
pub mod uploads;
pub mod weather;
pub mod bookings;
pub mod password;
pub mod auth;
pub mod email_templates;
pub mod config;
pub mod checklist;
pub mod events;
pub mod fish_species;
pub mod notifications;
