//! The core of the Athena world editor.
//!
//! The editor shows a document of worlds and entities as a column of text
//! and buttons, and changes the document when a button is clicked. This
//! library holds everything that is decided on the way:
//!
//! - [`model`]: the document, and the changes it allows;
//! - [`view`]: the layout that presents a document, and the error screen;
//! - [`caption`] and [`text`]: the words on the widgets;
//! - [`message`] and [`update`]: what a click asks for, and what it does;
//! - [`session`]: when the event loop stops, swaps layouts, and passes a
//!   window event on to the widgets;
//! - [`startup`]: which screen comes up when the editor is started.
//!
//! The window, the files and the arithmetic on coordinates belong to the
//! front end. It shows the layouts it is given, sends the message of the
//! button that was clicked to [`update::update`], and carries out the
//! command that comes back.

pub mod caption;
pub mod message;
pub mod model;
pub mod session;
pub mod startup;
pub mod text;
pub mod update;
pub mod view;
