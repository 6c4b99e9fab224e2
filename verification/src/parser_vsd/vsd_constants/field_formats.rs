//! Format tags of text fields.

#![allow(non_upper_case_globals)]

use vstd::prelude::*;

verus! {

pub const VSD_FIELD_FORMAT_NumGenNoUnits: u16 = 0;

pub const VSD_FIELD_FORMAT_NumGenDefUnits: u16 = 1;

pub const VSD_FIELD_FORMAT_0PlNoUnits: u16 = 2;

pub const VSD_FIELD_FORMAT_0PlDefUnits: u16 = 3;

pub const VSD_FIELD_FORMAT_1PlNoUnits: u16 = 4;

pub const VSD_FIELD_FORMAT_1PlDefUnits: u16 = 5;

pub const VSD_FIELD_FORMAT_2PlNoUnits: u16 = 6;

pub const VSD_FIELD_FORMAT_2PlDefUnits: u16 = 7;

pub const VSD_FIELD_FORMAT_3PlNoUnits: u16 = 8;

pub const VSD_FIELD_FORMAT_3PlDefUnits: u16 = 9;

pub const VSD_FIELD_FORMAT_FeetAndInches: u16 = 10;

pub const VSD_FIELD_FORMAT_Radians: u16 = 11;

pub const VSD_FIELD_FORMAT_Degrees: u16 = 12;

pub const VSD_FIELD_FORMAT_FeetAndInches1Pl: u16 = 13;

pub const VSD_FIELD_FORMAT_FeetAndInches2Pl: u16 = 14;

pub const VSD_FIELD_FORMAT_Fraction1PlNoUnits: u16 = 15;

pub const VSD_FIELD_FORMAT_Fraction1PlDefUnits: u16 = 16;

pub const VSD_FIELD_FORMAT_Fraction2PlNoUnits: u16 = 17;

pub const VSD_FIELD_FORMAT_Fraction2PlDefUnits: u16 = 18;

pub const VSD_FIELD_FORMAT_DateShort: u16 = 20;

pub const VSD_FIELD_FORMAT_DateLong: u16 = 21;

pub const VSD_FIELD_FORMAT_DateMDYY: u16 = 22;

pub const VSD_FIELD_FORMAT_DateMMDDYY: u16 = 23;

pub const VSD_FIELD_FORMAT_DateMMMDYYYY: u16 = 24;

pub const VSD_FIELD_FORMAT_DateMMMMDYYYY: u16 = 25;

pub const VSD_FIELD_FORMAT_DateDMYY: u16 = 26;

pub const VSD_FIELD_FORMAT_DateDDMMYY: u16 = 27;

pub const VSD_FIELD_FORMAT_DateDMMMYYYY: u16 = 28;

pub const VSD_FIELD_FORMAT_DateDMMMMYYYY: u16 = 29;

pub const VSD_FIELD_FORMAT_TimeGen: u16 = 30;

pub const VSD_FIELD_FORMAT_TimeHMM: u16 = 31;

pub const VSD_FIELD_FORMAT_TimeHHMM: u16 = 32;

pub const VSD_FIELD_FORMAT_TimeHMM24: u16 = 33;

pub const VSD_FIELD_FORMAT_TimeHHMM24: u16 = 34;

pub const VSD_FIELD_FORMAT_TimeHMMAMPM: u16 = 35;

pub const VSD_FIELD_FORMAT_TimeHHMMAMPM: u16 = 36;

pub const VSD_FIELD_FORMAT_StrNormal: u16 = 37;

pub const VSD_FIELD_FORMAT_StrLower: u16 = 38;

pub const VSD_FIELD_FORMAT_StrUpper: u16 = 39;

pub const VSD_FIELD_FORMAT_Dateyyyymd: u16 = 44;

pub const VSD_FIELD_FORMAT_Dateyymmdd: u16 = 45;

pub const VSD_FIELD_FORMAT_TimeAMPMhmm_J: u16 = 46;

pub const VSD_FIELD_FORMAT_DateTWNfYYYYMMDDD_C: u16 = 50;

pub const VSD_FIELD_FORMAT_DateTWNsYYYYMMDDD_C: u16 = 51;

pub const VSD_FIELD_FORMAT_DateTWNfyyyymmddww_C: u16 = 52;

pub const VSD_FIELD_FORMAT_DateTWNfyyyymmdd_C: u16 = 53;

pub const VSD_FIELD_FORMAT_Dategggemdww_J: u16 = 54;

pub const VSD_FIELD_FORMAT_Dateyyyymdww_J: u16 = 55;

pub const VSD_FIELD_FORMAT_Dategggemd_J: u16 = 56;

pub const VSD_FIELD_FORMAT_Dateyyyymd_J: u16 = 57;

pub const VSD_FIELD_FORMAT_DateYYYYMMMDDDWWW_C: u16 = 58;

pub const VSD_FIELD_FORMAT_DateYYYYMMMDDD_C: u16 = 59;

pub const VSD_FIELD_FORMAT_DategeMMMMddddww_K: u16 = 60;

pub const VSD_FIELD_FORMAT_Dateyyyymdww_K: u16 = 61;

pub const VSD_FIELD_FORMAT_DategeMMMMddd_K: u16 = 62;

pub const VSD_FIELD_FORMAT_Dateyyyymd_K: u16 = 63;

pub const VSD_FIELD_FORMAT_Dateyyyy_m_d: u16 = 64;

pub const VSD_FIELD_FORMAT_Dateyy_mm_dd: u16 = 65;

pub const VSD_FIELD_FORMAT_TimeAMPMhmm_C: u16 = 66;

pub const VSD_FIELD_FORMAT_TimeAMPMhmm_K: u16 = 67;

pub const VSD_FIELD_FORMAT_TimeAMPM_hmm_J: u16 = 68;

pub const VSD_FIELD_FORMAT_Timehmm_J: u16 = 69;

pub const VSD_FIELD_FORMAT_TimeAMPM_hmm_C: u16 = 70;

pub const VSD_FIELD_FORMAT_Timehmm_C: u16 = 71;

pub const VSD_FIELD_FORMAT_TimeAMPM_hmm_K: u16 = 72;

pub const VSD_FIELD_FORMAT_Timehmm_K: u16 = 73;

pub const VSD_FIELD_FORMAT_TimeHMMAMPM_E: u16 = 74;

pub const VSD_FIELD_FORMAT_TimeHHMMAMPM_E: u16 = 75;

pub const VSD_FIELD_FORMAT_Dateyyyymd_S: u16 = 76;

pub const VSD_FIELD_FORMAT_Dateyyyymmdd_S: u16 = 77;

pub const VSD_FIELD_FORMAT_Datewwyyyymmdd_S: u16 = 78;

pub const VSD_FIELD_FORMAT_Datewwyyyymd_S: u16 = 79;

pub const VSD_FIELD_FORMAT_TimeAMPMhmm_S: u16 = 80;

pub const VSD_FIELD_FORMAT_TimeAMPMhhmm_S: u16 = 81;

pub const VSD_FIELD_FORMAT_MsoDateShort: u16 = 200;

pub const VSD_FIELD_FORMAT_MsoDateLongDay: u16 = 201;

pub const VSD_FIELD_FORMAT_MsoDateLong: u16 = 202;

pub const VSD_FIELD_FORMAT_MsoDateShortAlt: u16 = 203;

pub const VSD_FIELD_FORMAT_MsoDateISO: u16 = 204;

pub const VSD_FIELD_FORMAT_MsoDateShortMon: u16 = 205;

pub const VSD_FIELD_FORMAT_MsoDateShortSlash: u16 = 206;

pub const VSD_FIELD_FORMAT_MsoDateShortAbb: u16 = 207;

pub const VSD_FIELD_FORMAT_MsoDateEnglish: u16 = 208;

pub const VSD_FIELD_FORMAT_MsoDateMonthYr: u16 = 209;

pub const VSD_FIELD_FORMAT_MsoDateMon_Yr: u16 = 210;

pub const VSD_FIELD_FORMAT_MsoTimeDatePM: u16 = 211;

pub const VSD_FIELD_FORMAT_MsoTimeDateSecPM: u16 = 212;

pub const VSD_FIELD_FORMAT_MsoTimePM: u16 = 213;

pub const VSD_FIELD_FORMAT_MsoTimeSecPM: u16 = 214;

pub const VSD_FIELD_FORMAT_MsoTime24: u16 = 215;

pub const VSD_FIELD_FORMAT_MsoTimeSec24: u16 = 216;

pub const VSD_FIELD_FORMAT_MsoFEExtra1: u16 = 217;

pub const VSD_FIELD_FORMAT_MsoFEExtra2: u16 = 218;

pub const VSD_FIELD_FORMAT_MsoFEExtra3: u16 = 219;

pub const VSD_FIELD_FORMAT_MsoFEExtra4: u16 = 220;

pub const VSD_FIELD_FORMAT_MsoFEExtra5: u16 = 221;

pub const VSD_FIELD_FORMAT_Unknown: u16 = 0xffff;

} // verus!
