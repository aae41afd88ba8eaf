//! Document-object logic of a browser engine's script component: element
//! attribute reflection, `<dialog>` closing, `<meta>` name processing, radio
//! node list values, transition events and the DOM manipulation task source.
pub mod text;
pub mod element;
pub mod dialog;
pub mod radio;
pub mod meta;
pub mod caption;
pub mod event;
pub mod transition;
pub mod task_source;
