//! Type tags of chunks and records.

#![allow(non_upper_case_globals)]

use vstd::prelude::*;

verus! {

pub const VSD_FOREIGN_DATA: u8 = 0x0c;

pub const VSD_OLE_LIST: u8 = 0x0d;

pub const VSD_TEXT: u8 = 0x0e;

pub const VSD_TRAILER_STREAM: u8 = 0x14;

pub const VSD_PAGE: u8 = 0x15;

pub const VSD_COLORS: u8 = 0x16;

pub const VSD_FONT_LIST: u8 = 0x18;

pub const VSD_FONT_IX: u8 = 0x19;

pub const VSD_STYLES: u8 = 0x1a;

pub const VSD_STENCILS: u8 = 0x1d;

pub const VSD_STENCIL_PAGE: u8 = 0x1e;

pub const VSD_OLE_DATA: u8 = 0x1f;

pub const VSD_PAGES: u8 = 0x27;

pub const VSD_NAME_LIST: u8 = 0x2c;

pub const VSD_NAME: u8 = 0x2d;

pub const VSD_NAME_LIST2: u8 = 0x32;

pub const VSD_NAME2: u8 = 0x33;

pub const VSD_NAMEIDX123: u8 = 0x34;

pub const VSD_PAGE_SHEET: u8 = 0x46;

pub const VSD_SHAPE_GROUP: u8 = 0x47;

pub const VSD_SHAPE_SHAPE: u8 = 0x48;

pub const VSD_SHAPE_GUIDE: u8 = 0x4d;

pub const VSD_SHAPE_FOREIGN: u8 = 0x4e;

pub const VSD_STYLE_SHEET: u8 = 0x4a;

pub const VSD_SCRATCH_LIST: u8 = 0x64;

pub const VSD_SHAPE_LIST: u8 = 0x65;

pub const VSD_FIELD_LIST: u8 = 0x66;

pub const VSD_PROP_LIST: u8 = 0x68;

pub const VSD_CHAR_LIST: u8 = 0x69;

pub const VSD_PARA_LIST: u8 = 0x6a;

pub const VSD_TABS_DATA_LIST: u8 = 0x6b;

pub const VSD_GEOM_LIST: u8 = 0x6c;

pub const VSD_CUST_PROPS_LIST: u8 = 0x6d;

pub const VSD_ACT_ID_LIST: u8 = 0x6e;

pub const VSD_LAYER_LIST: u8 = 0x6f;

pub const VSD_CTRL_LIST: u8 = 0x70;

pub const VSD_C_PNTS_LIST: u8 = 0x71;

pub const VSD_CONNECT_LIST: u8 = 0x72;

pub const VSD_HYPER_LNK_LIST: u8 = 0x73;

pub const VSD_SMART_TAG_LIST: u8 = 0x76;

pub const VSD_SHAPE_ID: u8 = 0x83;

pub const VSD_EVENT: u8 = 0x84;

pub const VSD_LINE: u8 = 0x85;

pub const VSD_FILL_AND_SHADOW: u8 = 0x86;

pub const VSD_TEXT_BLOCK: u8 = 0x87;

pub const VSD_TABS_DATA_1: u8 = 0x88;

pub const VSD_GEOMETRY: u8 = 0x89;

pub const VSD_MOVE_TO: u8 = 0x8a;

pub const VSD_LINE_TO: u8 = 0x8b;

pub const VSD_ARC_TO: u8 = 0x8c;

pub const VSD_INFINITE_LINE: u8 = 0x8d;

pub const VSD_ELLIPSE: u8 = 0x8f;

pub const VSD_ELLIPTICAL_ARC_TO: u8 = 0x90;

pub const VSD_PAGE_PROPS: u8 = 0x92;

pub const VSD_STYLE_PROPS: u8 = 0x93;

pub const VSD_CHAR_IX: u8 = 0x94;

pub const VSD_PARA_IX: u8 = 0x95;

pub const VSD_TABS_DATA_2: u8 = 0x96;

pub const VSD_TABS_DATA_3: u8 = 0x97;

pub const VSD_FOREIGN_DATA_TYPE: u8 = 0x98;

pub const VSD_CONNECTION_POINTS: u8 = 0x99;

pub const VSD_XFORM_DATA: u8 = 0x9b;

pub const VSD_TEXT_XFORM: u8 = 0x9c;

pub const VSD_XFORM_1D: u8 = 0x9d;

pub const VSD_SCRATCH: u8 = 0x9e;

pub const VSD_PROTECTION: u8 = 0xa0;

pub const VSD_TEXT_FIELD: u8 = 0xa1;

pub const VSD_CONTROL_ANOTHER_TYPE: u8 = 0xa2;

pub const VSD_MISC: u8 = 0xa4;

pub const VSD_SPLINE_START: u8 = 0xa5;

pub const VSD_SPLINE_KNOT: u8 = 0xa6;

pub const VSD_LAYER_MEMBERSHIP: u8 = 0xa7;

pub const VSD_LAYER: u8 = 0xa8;

pub const VSD_ACT_ID: u8 = 0xa9;

pub const VSD_CONTROL: u8 = 0xaa;

pub const VSD_USER_DEFINED_CELLS: u8 = 0xb4;

pub const VSD_TABS_DATA_4: u8 = 0xb5;

pub const VSD_CUSTOM_PROPS: u8 = 0xb6;

pub const VSD_RULER_GRID: u8 = 0xb7;

pub const VSD_CONNECTION_POINTS_ANOTHER_TYPE: u8 = 0xba;

pub const VSD_DOC_PROPS: u8 = 0xbc;

pub const VSD_IMAGE: u8 = 0xbd;

pub const VSD_GROUP: u8 = 0xbe;

pub const VSD_LAYOUT: u8 = 0xbf;

pub const VSD_PAGE_LAYOUT_IX: u8 = 0xc0;

pub const VSD_POLYLINE_TO: u8 = 0xc1;

pub const VSD_NURBS_TO: u8 = 0xc3;

pub const VSD_HYPERLINK: u8 = 0xc4;

pub const VSD_REVIEWER: u8 = 0xc5;

pub const VSD_ANNOTATION: u8 = 0xc6;

pub const VSD_SMART_TAG_DEF: u8 = 0xc7;

pub const VSD_PRINT_PROPS: u8 = 0xc8;

pub const VSD_NAMEIDX: u8 = 0xc9;

pub const VSD_SHAPE_DATA: u8 = 0xd1;

pub const VSD_FONTFACE: u8 = 0xd7;

pub const VSD_FONTFACES: u8 = 0xd8;

} // verus!
