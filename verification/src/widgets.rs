pub mod arc_track;
pub mod geometry;
pub mod knob_group;
pub mod knob_trace;
pub mod params_knob;
pub mod spectrum_view;
pub mod waveform_view;
