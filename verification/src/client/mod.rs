//! The Gemini API client: its configuration, requests, responses and endpoints.
pub mod config;
pub mod endpoints;
pub mod files;
pub mod requests;
pub mod responses;
pub mod video;
