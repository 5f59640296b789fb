//! The image-format property namespace: fields published under the
//! `tiff.<field>` keys.

use vstd::prelude::*;

use crate::parse::{chars_eq_str, parse_fixed_str, spec_parse_fixed, to_chars, FixedDecimal};
use crate::properties::spec_pairs;

verus! {

/// The mathematical model of the parsed `tiff` namespace.
pub ghost struct TiffModel {
    pub image_description: Option<Seq<char>>,
    pub software: Option<Seq<char>>,
    pub model: Option<Seq<char>>,
    pub date_time: Option<Seq<char>>,
    pub make: Option<Seq<char>>,
    pub x_resolution: Option<FixedDecimal>,
    pub y_resolution: Option<FixedDecimal>,
    pub resolution_unit: Option<Seq<char>>,
    pub unparsed: Seq<(Seq<char>, Seq<char>)>,
}

/// Properties available under the `tiff.<field>` keys of the property
/// map.
#[derive(Clone, Debug)]
pub struct Tiff {
    /// Image description.
    pub image_description: Option<String>,
    /// Software that produced the image.
    pub software: Option<String>,
    /// Scanner model name.
    pub model: Option<String>,
    /// Timestamp of creation.
    pub date_time: Option<String>,
    /// Scanner manufacturer.
    pub make: Option<String>,
    /// Resolution in the x direction.
    pub x_resolution: Option<FixedDecimal>,
    /// Resolution in the y direction.
    pub y_resolution: Option<FixedDecimal>,
    /// Resolution unit (e.g. centimeter or inch).
    pub resolution_unit: Option<String>,
    /// Keys under this namespace that matched no known field, kept as
    /// non-fatal diagnostics with their values.
    pub unparsed: Vec<(String, String)>,
}

impl View for Tiff {
    type V = TiffModel;

    open spec fn view(&self) -> TiffModel {
        TiffModel {
            image_description: match self.image_description {
                Some(s) => Some(s@),
                None => None,
            },
            software: match self.software {
                Some(s) => Some(s@),
                None => None,
            },
            model: match self.model {
                Some(s) => Some(s@),
                None => None,
            },
            date_time: match self.date_time {
                Some(s) => Some(s@),
                None => None,
            },
            make: match self.make {
                Some(s) => Some(s@),
                None => None,
            },
            x_resolution: self.x_resolution,
            y_resolution: self.y_resolution,
            resolution_unit: match self.resolution_unit {
                Some(s) => Some(s@),
                None => None,
            },
            unparsed: spec_pairs(self.unparsed@),
        }
    }
}

/// The model with every field still absent.
pub open spec fn spec_tiff_default() -> TiffModel {
    TiffModel {
        image_description: None,
        software: None,
        model: None,
        date_time: None,
        make: None,
        x_resolution: None,
        y_resolution: None,
        resolution_unit: None,
        unparsed: Seq::empty(),
    }
}

/// One key/value pair of the `tiff` namespace applied to the model: a
/// known field is set to the value (numeric fields to its parse,
/// absent when it does not parse), anything else is kept as an
/// unparsed diagnostic.
pub open spec fn spec_tiff_apply(pre: TiffModel, key: Seq<char>, value: Seq<char>) -> TiffModel {
    if key == "tiff.ImageDescription"@ {
        TiffModel { image_description: Some(value), ..pre }
    } else if key == "tiff.Software"@ {
        TiffModel { software: Some(value), ..pre }
    } else if key == "tiff.Model"@ {
        TiffModel { model: Some(value), ..pre }
    } else if key == "tiff.DateTime"@ {
        TiffModel { date_time: Some(value), ..pre }
    } else if key == "tiff.Make"@ {
        TiffModel { make: Some(value), ..pre }
    } else if key == "tiff.XResolution"@ {
        TiffModel { x_resolution: spec_parse_fixed(value), ..pre }
    } else if key == "tiff.YResolution"@ {
        TiffModel { y_resolution: spec_parse_fixed(value), ..pre }
    } else if key == "tiff.ResolutionUnit"@ {
        TiffModel { resolution_unit: Some(value), ..pre }
    } else {
        TiffModel { unparsed: pre.unparsed.push((key, value)), ..pre }
    }
}

impl Default for Tiff {
    /// A record with every field still absent.
    fn default() -> (r: Tiff)
        ensures
            r@ == spec_tiff_default(),
    {
        let r = Tiff {
            image_description: None,
            software: None,
            model: None,
            date_time: None,
            make: None,
            x_resolution: None,
            y_resolution: None,
            resolution_unit: None,
            unparsed: Vec::new(),
        };
        proof {
            assert(r@.unparsed =~= Seq::<(Seq<char>, Seq<char>)>::empty());
        }
        r
    }
}

impl Tiff {
    /// Applies one key/value pair of the `tiff` namespace.
    pub fn parse_property_name(&mut self, name: &str, value: &str)
        ensures
            final(self)@ == spec_tiff_apply(old(self)@, name@, value@),
    {
        let chars = to_chars(name);
        let n = chars.len();
        proof {
            assert(chars@.subrange(0, n as int) =~= name@);
        }
        if chars_eq_str(&chars, 0, n, "tiff.ImageDescription") {
            self.image_description = Some(value.to_owned());
        } else if chars_eq_str(&chars, 0, n, "tiff.Software") {
            self.software = Some(value.to_owned());
        } else if chars_eq_str(&chars, 0, n, "tiff.Model") {
            self.model = Some(value.to_owned());
        } else if chars_eq_str(&chars, 0, n, "tiff.DateTime") {
            self.date_time = Some(value.to_owned());
        } else if chars_eq_str(&chars, 0, n, "tiff.Make") {
            self.make = Some(value.to_owned());
        } else if chars_eq_str(&chars, 0, n, "tiff.XResolution") {
            self.x_resolution = parse_fixed_str(value);
        } else if chars_eq_str(&chars, 0, n, "tiff.YResolution") {
            self.y_resolution = parse_fixed_str(value);
        } else if chars_eq_str(&chars, 0, n, "tiff.ResolutionUnit") {
            self.resolution_unit = Some(value.to_owned());
        } else {
            self.unparsed.push((name.to_owned(), value.to_owned()));
            proof {
                assert(self@.unparsed =~= old(self)@.unparsed.push((name@, value@)));
            }
        }
    }
}

} // verus!
