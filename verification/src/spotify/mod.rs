pub mod credentials;
pub mod uri;
pub mod track;
pub mod search;
pub mod audio;
