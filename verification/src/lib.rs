//! Decision logic of a small backend-for-frontend: the configuration it is
//! started with, the requests it sends to its weather and music providers,
//! the way it reads their answers, and the refresh-and-retry flow of the
//! music endpoint. All transport is left to the caller.

pub mod config;
pub mod text;
pub mod tokens;
pub mod music;
pub mod weather;
