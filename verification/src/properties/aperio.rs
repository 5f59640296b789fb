//! The Aperio vendor property namespace: fields published under the
//! `aperio.<field>` keys (field names may contain spaces).

use vstd::prelude::*;

use crate::parse::{
    chars_eq_str, parse_fixed_str, parse_u32_str, spec_parse_fixed, spec_parse_u32, to_chars,
    FixedDecimal,
};
use crate::properties::spec_pairs;

verus! {

/// The mathematical model of the parsed `aperio` namespace.
pub ghost struct AperioModel {
    pub filename: Option<Seq<char>>,
    pub title: Option<Seq<char>>,
    pub image_id: Option<Seq<char>>,
    pub dsr_id: Option<Seq<char>>,
    pub scan_scope_id: Option<Seq<char>>,
    pub date: Option<Seq<char>>,
    pub time: Option<Seq<char>>,
    pub time_zone: Option<Seq<char>>,
    pub user: Option<Seq<char>>,
    pub icc_profile: Option<Seq<char>>,
    pub parmset: Option<Seq<char>>,
    pub original_height: Option<u32>,
    pub original_width: Option<u32>,
    pub top: Option<FixedDecimal>,
    pub left: Option<FixedDecimal>,
    pub mpp: Option<FixedDecimal>,
    pub line_camera_skew: Option<FixedDecimal>,
    pub line_area_x_offset: Option<FixedDecimal>,
    pub line_area_y_offset: Option<FixedDecimal>,
    pub focus_offset: Option<FixedDecimal>,
    pub app_mag: Option<u32>,
    pub stripe_width: Option<u32>,
    pub filtered: Option<u32>,
    pub display_color: Option<u32>,
    pub exposure_time: Option<u32>,
    pub exposure_scale: Option<FixedDecimal>,
    pub sesson_mode: Option<Seq<char>>,
    pub unparsed: Seq<(Seq<char>, Seq<char>)>,
}

/// Properties available under the `aperio.<field>` keys of the
/// property map.
#[derive(Clone, Debug)]
pub struct Aperio {
    /// Slide filename.
    pub filename: Option<String>,
    /// Slide image title.
    pub title: Option<String>,
    /// Slide image id.
    pub image_id: Option<String>,
    /// DSR id.
    pub dsr_id: Option<String>,
    /// ScanScope id.
    pub scan_scope_id: Option<String>,
    /// Date of creation (mm/dd/yy).
    pub date: Option<String>,
    /// Time of creation (hh:mm:ss).
    pub time: Option<String>,
    /// Time zone.
    pub time_zone: Option<String>,
    /// User.
    pub user: Option<String>,
    /// ICC profile.
    pub icc_profile: Option<String>,
    /// Parmset.
    pub parmset: Option<String>,
    /// Slide height.
    pub original_height: Option<u32>,
    /// Slide width.
    pub original_width: Option<u32>,
    /// Top position.
    pub top: Option<FixedDecimal>,
    /// Left position.
    pub left: Option<FixedDecimal>,
    /// Micrometer per pixel.
    pub mpp: Option<FixedDecimal>,
    /// Line camera skew.
    pub line_camera_skew: Option<FixedDecimal>,
    /// Line area offset in the x direction.
    pub line_area_x_offset: Option<FixedDecimal>,
    /// Line area offset in the y direction.
    pub line_area_y_offset: Option<FixedDecimal>,
    /// Focus offset.
    pub focus_offset: Option<FixedDecimal>,
    /// Objective power at scan time.
    pub app_mag: Option<u32>,
    /// Scan stripe width.
    pub stripe_width: Option<u32>,
    /// Filtered.
    pub filtered: Option<u32>,
    /// Display color.
    pub display_color: Option<u32>,
    /// Exposure time.
    pub exposure_time: Option<u32>,
    /// Exposure scale.
    pub exposure_scale: Option<FixedDecimal>,
    /// Session mode.
    pub sesson_mode: Option<String>,
    /// Keys under this namespace that matched no known field, kept as
    /// non-fatal diagnostics with their values.
    pub unparsed: Vec<(String, String)>,
}

impl View for Aperio {
    type V = AperioModel;

    open spec fn view(&self) -> AperioModel {
        AperioModel {
            filename: match self.filename {
                Some(s) => Some(s@),
                None => None,
            },
            title: match self.title {
                Some(s) => Some(s@),
                None => None,
            },
            image_id: match self.image_id {
                Some(s) => Some(s@),
                None => None,
            },
            dsr_id: match self.dsr_id {
                Some(s) => Some(s@),
                None => None,
            },
            scan_scope_id: match self.scan_scope_id {
                Some(s) => Some(s@),
                None => None,
            },
            date: match self.date {
                Some(s) => Some(s@),
                None => None,
            },
            time: match self.time {
                Some(s) => Some(s@),
                None => None,
            },
            time_zone: match self.time_zone {
                Some(s) => Some(s@),
                None => None,
            },
            user: match self.user {
                Some(s) => Some(s@),
                None => None,
            },
            icc_profile: match self.icc_profile {
                Some(s) => Some(s@),
                None => None,
            },
            parmset: match self.parmset {
                Some(s) => Some(s@),
                None => None,
            },
            original_height: self.original_height,
            original_width: self.original_width,
            top: self.top,
            left: self.left,
            mpp: self.mpp,
            line_camera_skew: self.line_camera_skew,
            line_area_x_offset: self.line_area_x_offset,
            line_area_y_offset: self.line_area_y_offset,
            focus_offset: self.focus_offset,
            app_mag: self.app_mag,
            stripe_width: self.stripe_width,
            filtered: self.filtered,
            display_color: self.display_color,
            exposure_time: self.exposure_time,
            exposure_scale: self.exposure_scale,
            sesson_mode: match self.sesson_mode {
                Some(s) => Some(s@),
                None => None,
            },
            unparsed: spec_pairs(self.unparsed@),
        }
    }
}

/// The model with every field still absent.
pub open spec fn spec_aperio_default() -> AperioModel {
    AperioModel {
        filename: None,
        title: None,
        image_id: None,
        dsr_id: None,
        scan_scope_id: None,
        date: None,
        time: None,
        time_zone: None,
        user: None,
        icc_profile: None,
        parmset: None,
        original_height: None,
        original_width: None,
        top: None,
        left: None,
        mpp: None,
        line_camera_skew: None,
        line_area_x_offset: None,
        line_area_y_offset: None,
        focus_offset: None,
        app_mag: None,
        stripe_width: None,
        filtered: None,
        display_color: None,
        exposure_time: None,
        exposure_scale: None,
        sesson_mode: None,
        unparsed: Seq::empty(),
    }
}

/// One key/value pair of the `aperio` namespace applied to the model:
/// a known field is set to the value (numeric fields to its parse,
/// absent when it does not parse), anything else is kept as an
/// unparsed diagnostic.
pub open spec fn spec_aperio_apply(
    pre: AperioModel,
    key: Seq<char>,
    value: Seq<char>,
) -> AperioModel {
    if key == "aperio.Filename"@ {
        AperioModel { filename: Some(value), ..pre }
    } else if key == "aperio.Title"@ {
        AperioModel { title: Some(value), ..pre }
    } else if key == "aperio.ImageID"@ {
        AperioModel { image_id: Some(value), ..pre }
    } else if key == "aperio.DSR ID"@ {
        AperioModel { dsr_id: Some(value), ..pre }
    } else if key == "aperio.ScanScope ID"@ {
        AperioModel { scan_scope_id: Some(value), ..pre }
    } else if key == "aperio.Date"@ {
        AperioModel { date: Some(value), ..pre }
    } else if key == "aperio.Time"@ {
        AperioModel { time: Some(value), ..pre }
    } else if key == "aperio.Time Zone"@ {
        AperioModel { time_zone: Some(value), ..pre }
    } else if key == "aperio.User"@ {
        AperioModel { user: Some(value), ..pre }
    } else if key == "aperio.ICC Profile"@ {
        AperioModel { icc_profile: Some(value), ..pre }
    } else if key == "aperio.Parmset"@ {
        AperioModel { parmset: Some(value), ..pre }
    } else if key == "aperio.OriginalHeight"@ {
        AperioModel { original_height: spec_parse_u32(value), ..pre }
    } else if key == "aperio.OriginalWidth"@ {
        AperioModel { original_width: spec_parse_u32(value), ..pre }
    } else if key == "aperio.Top"@ {
        AperioModel { top: spec_parse_fixed(value), ..pre }
    } else if key == "aperio.Left"@ {
        AperioModel { left: spec_parse_fixed(value), ..pre }
    } else if key == "aperio.MPP"@ {
        AperioModel { mpp: spec_parse_fixed(value), ..pre }
    } else if key == "aperio.LineCameraSkew"@ {
        AperioModel { line_camera_skew: spec_parse_fixed(value), ..pre }
    } else if key == "aperio.LineAreaXOffset"@ {
        AperioModel { line_area_x_offset: spec_parse_fixed(value), ..pre }
    } else if key == "aperio.LineAreaYOffset"@ {
        AperioModel { line_area_y_offset: spec_parse_fixed(value), ..pre }
    } else if key == "aperio.Focus Offset"@ {
        AperioModel { focus_offset: spec_parse_fixed(value), ..pre }
    } else if key == "aperio.AppMag"@ {
        AperioModel { app_mag: spec_parse_u32(value), ..pre }
    } else if key == "aperio.StripeWidth"@ {
        AperioModel { stripe_width: spec_parse_u32(value), ..pre }
    } else if key == "aperio.Filtered"@ {
        AperioModel { filtered: spec_parse_u32(value), ..pre }
    } else if key == "aperio.DisplayColor"@ {
        AperioModel { display_color: spec_parse_u32(value), ..pre }
    } else if key == "aperio.Exposure Time"@ {
        AperioModel { exposure_time: spec_parse_u32(value), ..pre }
    } else if key == "aperio.Exposure Scale"@ {
        AperioModel { exposure_scale: spec_parse_fixed(value), ..pre }
    } else if key == "aperio.SessonMode"@ {
        AperioModel { sesson_mode: Some(value), ..pre }
    } else {
        AperioModel { unparsed: pre.unparsed.push((key, value)), ..pre }
    }
}

impl Default for Aperio {
    /// A record with every field still absent.
    fn default() -> (r: Aperio)
        ensures
            r@ == spec_aperio_default(),
    {
        let r = Aperio {
            filename: None,
            title: None,
            image_id: None,
            dsr_id: None,
            scan_scope_id: None,
            date: None,
            time: None,
            time_zone: None,
            user: None,
            icc_profile: None,
            parmset: None,
            original_height: None,
            original_width: None,
            top: None,
            left: None,
            mpp: None,
            line_camera_skew: None,
            line_area_x_offset: None,
            line_area_y_offset: None,
            focus_offset: None,
            app_mag: None,
            stripe_width: None,
            filtered: None,
            display_color: None,
            exposure_time: None,
            exposure_scale: None,
            sesson_mode: None,
            unparsed: Vec::new(),
        };
        proof {
            assert(r@.unparsed =~= Seq::<(Seq<char>, Seq<char>)>::empty());
        }
        r
    }
}

impl Aperio {
    /// Applies one key/value pair of the `aperio` namespace.
    pub fn parse_property_name(&mut self, name: &str, value: &str)
        ensures
            final(self)@ == spec_aperio_apply(old(self)@, name@, value@),
    {
        let chars = to_chars(name);
        let n = chars.len();
        proof {
            assert(chars@.subrange(0, n as int) =~= name@);
        }
        if chars_eq_str(&chars, 0, n, "aperio.Filename") {
            self.filename = Some(value.to_owned());
        } else if chars_eq_str(&chars, 0, n, "aperio.Title") {
            self.title = Some(value.to_owned());
        } else if chars_eq_str(&chars, 0, n, "aperio.ImageID") {
            self.image_id = Some(value.to_owned());
        } else if chars_eq_str(&chars, 0, n, "aperio.DSR ID") {
            self.dsr_id = Some(value.to_owned());
        } else if chars_eq_str(&chars, 0, n, "aperio.ScanScope ID") {
            self.scan_scope_id = Some(value.to_owned());
        } else if chars_eq_str(&chars, 0, n, "aperio.Date") {
            self.date = Some(value.to_owned());
        } else if chars_eq_str(&chars, 0, n, "aperio.Time") {
            self.time = Some(value.to_owned());
        } else if chars_eq_str(&chars, 0, n, "aperio.Time Zone") {
            self.time_zone = Some(value.to_owned());
        } else if chars_eq_str(&chars, 0, n, "aperio.User") {
            self.user = Some(value.to_owned());
        } else if chars_eq_str(&chars, 0, n, "aperio.ICC Profile") {
            self.icc_profile = Some(value.to_owned());
        } else if chars_eq_str(&chars, 0, n, "aperio.Parmset") {
            self.parmset = Some(value.to_owned());
        } else if chars_eq_str(&chars, 0, n, "aperio.OriginalHeight") {
            self.original_height = parse_u32_str(value);
        } else if chars_eq_str(&chars, 0, n, "aperio.OriginalWidth") {
            self.original_width = parse_u32_str(value);
        } else if chars_eq_str(&chars, 0, n, "aperio.Top") {
            self.top = parse_fixed_str(value);
        } else if chars_eq_str(&chars, 0, n, "aperio.Left") {
            self.left = parse_fixed_str(value);
        } else if chars_eq_str(&chars, 0, n, "aperio.MPP") {
            self.mpp = parse_fixed_str(value);
        } else if chars_eq_str(&chars, 0, n, "aperio.LineCameraSkew") {
            self.line_camera_skew = parse_fixed_str(value);
        } else if chars_eq_str(&chars, 0, n, "aperio.LineAreaXOffset") {
            self.line_area_x_offset = parse_fixed_str(value);
        } else if chars_eq_str(&chars, 0, n, "aperio.LineAreaYOffset") {
            self.line_area_y_offset = parse_fixed_str(value);
        } else if chars_eq_str(&chars, 0, n, "aperio.Focus Offset") {
            self.focus_offset = parse_fixed_str(value);
        } else if chars_eq_str(&chars, 0, n, "aperio.AppMag") {
            self.app_mag = parse_u32_str(value);
        } else if chars_eq_str(&chars, 0, n, "aperio.StripeWidth") {
            self.stripe_width = parse_u32_str(value);
        } else if chars_eq_str(&chars, 0, n, "aperio.Filtered") {
            self.filtered = parse_u32_str(value);
        } else if chars_eq_str(&chars, 0, n, "aperio.DisplayColor") {
            self.display_color = parse_u32_str(value);
        } else if chars_eq_str(&chars, 0, n, "aperio.Exposure Time") {
            self.exposure_time = parse_u32_str(value);
        } else if chars_eq_str(&chars, 0, n, "aperio.Exposure Scale") {
            self.exposure_scale = parse_fixed_str(value);
        } else if chars_eq_str(&chars, 0, n, "aperio.SessonMode") {
            self.sesson_mode = Some(value.to_owned());
        } else {
            self.unparsed.push((name.to_owned(), value.to_owned()));
            proof {
                assert(self@.unparsed =~= old(self)@.unparsed.push((name@, value@)));
            }
        }
    }
}

} // verus!
