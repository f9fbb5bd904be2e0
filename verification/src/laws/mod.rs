//! What holds of the library as a whole, stated over what goes in and what comes out.
pub mod animation;
pub mod calls;
pub mod connections;
pub mod memories;
pub mod question;
pub mod schemas;
pub mod services;
pub mod surroundings;
pub mod toolbox;
pub mod words;
