//! Per-axis feedback controllers for a flight controller, in fixed point.
//!
//! Every real quantity is an integer in a fixed unit: actuator channels in
//! thousandths of full scale (1000 is 1.0), altitudes in millimetres, climb
//! rates in millimetres per second, tick periods in milliseconds.
pub mod scale;
pub mod datatypes;
pub mod alt_hold;
pub mod angle_rate;
pub mod controller;
pub mod boundary;
