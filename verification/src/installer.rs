pub mod installing_page;
pub mod localize;
pub mod wizard;
