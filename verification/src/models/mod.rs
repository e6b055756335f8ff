pub mod user;
pub mod track;
pub mod playlist;
pub mod search;
