pub mod app;
pub mod dto;
pub mod dtos;
pub mod handlers;
pub mod ids;
pub mod json;
pub mod middlewares;
pub mod schedule;
pub mod text;
pub mod timestamps;
