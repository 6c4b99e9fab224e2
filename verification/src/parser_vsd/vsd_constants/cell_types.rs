//! Unit tags of cell values.

#![allow(non_upper_case_globals)]

use vstd::prelude::*;

verus! {

pub const CELL_TYPE_Number: u8 = 32;

pub const CELL_TYPE_Percent: u8 = 33;

pub const CELL_TYPE_Acre: u8 = 36;

pub const CELL_TYPE_Hectare: u8 = 37;

pub const CELL_TYPE_Date: u8 = 40;

pub const CELL_TYPE_DurationUnits: u8 = 42;

pub const CELL_TYPE_ElapsedWeek: u8 = 43;

pub const CELL_TYPE_ElapsedDay: u8 = 44;

pub const CELL_TYPE_ElapsedHour: u8 = 45;

pub const CELL_TYPE_ElapsedMin: u8 = 46;

pub const CELL_TYPE_ElapsedSec: u8 = 47;

pub const CELL_TYPE_TypeUnits: u8 = 48;

pub const CELL_TYPE_PicasAndPoints: u8 = 49;

pub const CELL_TYPE_Points: u8 = 50;

pub const CELL_TYPE_Picas: u8 = 51;

pub const CELL_TYPE_CicerosAndDidots: u8 = 52;

pub const CELL_TYPE_Didots: u8 = 53;

pub const CELL_TYPE_Ciceros: u8 = 54;

pub const CELL_TYPE_PageUnits: u8 = 63;

pub const CELL_TYPE_DrawingUnits: u8 = 64;

pub const CELL_TYPE_Inches: u8 = 65;

pub const CELL_TYPE_Feet: u8 = 66;

pub const CELL_TYPE_FeetAndInches: u8 = 67;

pub const CELL_TYPE_Miles: u8 = 68;

pub const CELL_TYPE_Centimeters: u8 = 69;

pub const CELL_TYPE_Millimeters: u8 = 70;

pub const CELL_TYPE_Meters: u8 = 71;

pub const CELL_TYPE_Kilometers: u8 = 72;

pub const CELL_TYPE_InchFractions: u8 = 73;

pub const CELL_TYPE_MileFractions: u8 = 74;

pub const CELL_TYPE_Yards: u8 = 75;

pub const CELL_TYPE_NauticalMiles: u8 = 76;

pub const CELL_TYPE_AngleUnits: u8 = 80;

pub const CELL_TYPE_Degrees: u8 = 81;

pub const CELL_TYPE_DegreeMinuteSecond: u8 = 82;

pub const CELL_TYPE_Radians: u8 = 83;

pub const CELL_TYPE_Minutes: u8 = 84;

pub const CELL_TYPE_Sec: u8 = 85;

pub const CELL_TYPE_GUID: u8 = 95;

pub const CELL_TYPE_Currency: u8 = 111;

pub const CELL_TYPE_NURBS: u8 = 138;

pub const CELL_TYPE_Polyline: u8 = 139;

pub const CELL_TYPE_Point: u8 = 225;

pub const CELL_TYPE_String: u8 = 231;

pub const CELL_TYPE_StringWithoutUnit: u8 = 232;

pub const CELL_TYPE_Multidimensional: u8 = 233;

pub const CELL_TYPE_Color: u8 = 251;

pub const CELL_TYPE_NoCast: u8 = 252;

pub const CELL_TYPE_Invalid: u8 = 255;

} // verus!
