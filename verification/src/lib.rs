//! An in-memory relational store for the rooms and devices of a smart house.
//!
//! The store keeps two tables, one of rooms and one of devices, and guards
//! three rules: room names are unique, device names are unique within a room,
//! and every device belongs to a room that exists. Every operation carries a
//! contract over a mathematical model of the two tables, and the rules are
//! proved to hold after each of them.

pub mod database;
pub mod domain;
pub mod errors;
pub mod ident;
pub mod laws;
pub mod model;
pub mod repository;
pub mod seq_facts;
pub mod service;
pub mod table;
