pub mod authentication;
pub mod configuration;
pub mod domain;
pub mod email_client;
pub mod repository;
pub mod routes;
pub mod startup;
pub mod text;
