//! A modal, keystroke-driven text-editing engine.
//!
//! The engine owns a document (a non-empty list of lines), a cursor, an
//! optional selection, a single-slot register, an undo history and the
//! active editing mode. One entry point,
//! [`editor_model::EditorModel::key_tapped`], takes a key code: the active
//! mode translates it into an action, and the engine records and applies
//! that action. The engine touches neither files nor the terminal: a save
//! and the end of the program are requests that it hands to its caller.
//!
//! What the engine does is stated in [`state`] as functions on a
//! mathematical value of the engine, and every function of
//! [`editor_model`] is proved to compute them. The other modules hold the
//! parts: positions ([`cursor`]), the selection ([`selection`]), the
//! register ([`yanker`]), the undo history ([`undo_redo`]), actions
//! ([`editor_action`]), motions ([`motion`]), the modes ([`modes`]), the
//! edits of a document ([`document`]), strings by characters ([`text`]),
//! key codes ([`keys`]) and the visible part of the document ([`screen`]).

pub mod cursor;
pub mod document;
pub mod editor_action;
pub mod editor_model;
pub mod keys;
pub mod modes;
pub mod motion;
pub mod screen;
pub mod selection;
pub mod state;
pub mod text;
pub mod undo_redo;
pub mod yanker;
