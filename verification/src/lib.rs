//! Kehrkraft: Kehrwoche (stair-cleaning) rotation planning for apartment
//! buildings, with verified scheduling, naming and rendering logic.

pub mod backup;
pub mod config;
pub mod dates;
pub mod db;
pub mod i18n;
pub mod scheduler;
pub mod text;
pub mod web;
