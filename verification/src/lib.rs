pub mod activity;
pub mod cert_cache;
pub mod db;
pub mod ebpf;
pub mod filter_config;
pub mod filter_engine;
pub mod gui;
pub mod monitor;
pub mod profile;
pub mod rules;
pub mod strset;
pub mod text;
pub mod web;

