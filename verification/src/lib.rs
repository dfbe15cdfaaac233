//! A knob for continuous audio parameters, decided in integers.
//!
//! The knob is adjusted by dragging, by the wheel or by typed text. It
//! performs nothing itself: each input event is answered with the list of
//! effects that the host has to carry out, so that the whole interaction
//! is a function from state and event to state and effects. What a knob
//! draws is a function of its value and shape in the same way.
//!
//! Values are held in fixed point. A normalized value counts steps of one
//! millionth of the range; lengths and angles that are drawn are whole
//! numbers of fixed parts of a layout unit and of a degree.

pub mod context;
pub mod editor;
pub mod installer;
pub mod value;
pub mod widgets;
