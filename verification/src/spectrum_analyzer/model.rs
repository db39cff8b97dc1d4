//! The models of spectrum analyzer radio modules and their ranges.
use vstd::prelude::*;

use crate::frequency::Frequency;

verus! {

/// The model of an RF Explorer spectrum analyzer radio module.
#[derive(Debug, Clone, Copy, PartialEq, Eq, Structural, Default)]
pub enum Model {
    /// 433 MHz model.
    Rfe433M,
    /// 868 MHz model.
    Rfe868M,
    /// 915 MHz model.
    Rfe915M,
    /// WSUB1G model.
    RfeWSub1G,
    /// 2.4 GHz model.
    Rfe24G,
    /// WSUB3G model.
    RfeWSub3G,
    /// 6 GHz model.
    Rfe6G,
    /// WSUB1G+ model.
    RfeWSub1GPlus,
    /// Pro Audio model.
    RfeProAudio,
    /// 2.4 GHz+ model.
    Rfe24GPlus,
    /// 4 GHz+ model.
    Rfe4GPlus,
    /// 6 GHz+ model.
    Rfe6GPlus,
    /// MW5G 3 GHz model.
    RfeMW5G3G,
    /// MW5G 4 GHz model.
    RfeMW5G4G,
    /// MW5G 5 GHz model.
    RfeMW5G5G,
    /// A model that this library does not know.
    #[default]
    Unknown,
}

/// The model that the device names by `code`: the known codes, and 19 to 254
/// for an unknown model; 7, 8, 9, 15 and 255 name none.
pub open spec fn model_from_code(code: u8) -> Option<Model> {
    if code == 0 {
        Some(Model::Rfe433M)
    } else if code == 1 {
        Some(Model::Rfe868M)
    } else if code == 2 {
        Some(Model::Rfe915M)
    } else if code == 3 {
        Some(Model::RfeWSub1G)
    } else if code == 4 {
        Some(Model::Rfe24G)
    } else if code == 5 {
        Some(Model::RfeWSub3G)
    } else if code == 6 {
        Some(Model::Rfe6G)
    } else if code == 10 {
        Some(Model::RfeWSub1GPlus)
    } else if code == 11 {
        Some(Model::RfeProAudio)
    } else if code == 12 {
        Some(Model::Rfe24GPlus)
    } else if code == 13 {
        Some(Model::Rfe4GPlus)
    } else if code == 14 {
        Some(Model::Rfe6GPlus)
    } else if code == 16 {
        Some(Model::RfeMW5G3G)
    } else if code == 17 {
        Some(Model::RfeMW5G4G)
    } else if code == 18 {
        Some(Model::RfeMW5G5G)
    } else if 19 <= code <= 254 {
        Some(Model::Unknown)
    } else {
        None
    }
}

/// The number by which the device names `model`.
pub open spec fn model_code(model: Model) -> u8 {
    match model {
        Model::Rfe433M => 0,
        Model::Rfe868M => 1,
        Model::Rfe915M => 2,
        Model::RfeWSub1G => 3,
        Model::Rfe24G => 4,
        Model::RfeWSub3G => 5,
        Model::Rfe6G => 6,
        Model::RfeWSub1GPlus => 10,
        Model::RfeProAudio => 11,
        Model::Rfe24GPlus => 12,
        Model::Rfe4GPlus => 13,
        Model::Rfe6GPlus => 14,
        Model::RfeMW5G3G => 16,
        Model::RfeMW5G4G => 17,
        Model::RfeMW5G5G => 18,
        Model::Unknown => 19,
    }
}

/// The lowest frequency, in hertz, that `model` measures.
pub open spec fn min_freq_hz(model: Model) -> u64 {
    match model {
        Model::Rfe433M => 430_000_000,
        Model::Rfe868M => 860_000_000,
        Model::Rfe915M => 910_000_000,
        Model::RfeWSub1G => 240_000_000,
        Model::RfeWSub1GPlus => 50_000,
        Model::Rfe24G | Model::Rfe24GPlus => 2_350_000_000,
        Model::RfeWSub3G | Model::RfeProAudio | Model::RfeMW5G3G | Model::RfeMW5G4G
        | Model::RfeMW5G5G => 15_000_000,
        Model::Rfe6G => 4_850_000_000,
        Model::Rfe4GPlus | Model::Rfe6GPlus => 240_000_000,
        Model::Unknown => 0,
    }
}

/// The highest frequency, in hertz, that `model` measures.
pub open spec fn max_freq_hz(model: Model) -> u64 {
    match model {
        Model::Rfe433M => 440_000_000,
        Model::Rfe868M => 870_000_000,
        Model::Rfe915M => 920_000_000,
        Model::RfeWSub1G | Model::RfeWSub1GPlus => 960_000_000,
        Model::Rfe24G | Model::Rfe24GPlus => 2_550_000_000,
        Model::RfeWSub3G | Model::RfeProAudio => 2_700_000_000,
        Model::Rfe4GPlus => 4_000_000_000,
        Model::Rfe6G | Model::Rfe6GPlus => 6_100_000_000,
        Model::RfeMW5G3G => 3_000_000_000,
        Model::RfeMW5G4G => 4_000_000_000,
        Model::RfeMW5G5G => 5_000_000_000,
        Model::Unknown => 0xffff_ffff_ffff_ffff,
    }
}

/// The narrowest span, in hertz, that `model` measures.
pub open spec fn min_span_hz(model: Model) -> u64 {
    match model {
        Model::Rfe433M | Model::Rfe868M | Model::Rfe915M | Model::RfeWSub1G | Model::RfeWSub3G
        | Model::RfeProAudio | Model::RfeMW5G3G | Model::RfeMW5G4G | Model::RfeMW5G5G => 112_000,
        Model::RfeWSub1GPlus => 100_000,
        Model::Rfe24G | Model::Rfe24GPlus | Model::Rfe4GPlus | Model::Rfe6G | Model::Rfe6GPlus =>
            2_000_000,
        Model::Unknown => 0,
    }
}

/// The widest span, in hertz, that `model` measures.
pub open spec fn max_span_hz(model: Model) -> u64 {
    match model {
        Model::Rfe433M | Model::Rfe868M | Model::Rfe915M => 10_000_000,
        Model::Rfe24G | Model::Rfe24GPlus => 85_000_000,
        Model::RfeWSub1G | Model::RfeMW5G3G | Model::RfeMW5G4G | Model::RfeMW5G5G => 300_000_000,
        Model::RfeWSub3G | Model::RfeProAudio | Model::Rfe6G => 600_000_000,
        Model::RfeWSub1GPlus => 959_950_000,
        Model::Rfe4GPlus | Model::Rfe6GPlus => 960_000_000,
        Model::Unknown => 0xffff_ffff_ffff_ffff,
    }
}

/// True for the 'Plus' models, which can change the number of points in a sweep.
pub open spec fn is_plus(model: Model) -> bool {
    match model {
        Model::RfeWSub1GPlus | Model::RfeProAudio | Model::Rfe24GPlus | Model::Rfe4GPlus
        | Model::Rfe6GPlus | Model::RfeMW5G3G | Model::RfeMW5G4G | Model::RfeMW5G5G => true,
        _ => false,
    }
}

/// The name of `model`, as the device shows it.
pub open spec fn model_name(model: Model) -> Seq<char> {
    match model {
        Model::Rfe433M => "433M"@,
        Model::Rfe868M => "868M"@,
        Model::Rfe915M => "915M"@,
        Model::RfeWSub1G => "WSUB1G"@,
        Model::Rfe24G => "2.4G"@,
        Model::RfeWSub3G => "WSUB3G"@,
        Model::Rfe6G => "6G"@,
        Model::RfeWSub1GPlus => "WSUB1G+"@,
        Model::RfeProAudio => "Pro Audio"@,
        Model::Rfe24GPlus => "2.4G+"@,
        Model::Rfe4GPlus => "4G+"@,
        Model::Rfe6GPlus => "6G+"@,
        Model::RfeMW5G3G => "MW5G 3GHz"@,
        Model::RfeMW5G4G => "MW5G 4GHz"@,
        Model::RfeMW5G5G => "MW5G 5GHz"@,
        Model::Unknown => "Unknown"@,
    }
}

impl Model {
    /// The model that the device names by `code`.
    pub fn from_code(code: u8) -> (r: Option<Model>)
        ensures
            r == model_from_code(code),
    {
        match code {
            0 => Some(Model::Rfe433M),
            1 => Some(Model::Rfe868M),
            2 => Some(Model::Rfe915M),
            3 => Some(Model::RfeWSub1G),
            4 => Some(Model::Rfe24G),
            5 => Some(Model::RfeWSub3G),
            6 => Some(Model::Rfe6G),
            10 => Some(Model::RfeWSub1GPlus),
            11 => Some(Model::RfeProAudio),
            12 => Some(Model::Rfe24GPlus),
            13 => Some(Model::Rfe4GPlus),
            14 => Some(Model::Rfe6GPlus),
            16 => Some(Model::RfeMW5G3G),
            17 => Some(Model::RfeMW5G4G),
            18 => Some(Model::RfeMW5G5G),
            19..=254 => Some(Model::Unknown),
            _ => None,
        }
    }

    /// The number by which the device names the model.
    pub fn code(&self) -> (c: u8)
        ensures
            c == model_code(*self),
    {
        match self {
            Model::Rfe433M => 0,
            Model::Rfe868M => 1,
            Model::Rfe915M => 2,
            Model::RfeWSub1G => 3,
            Model::Rfe24G => 4,
            Model::RfeWSub3G => 5,
            Model::Rfe6G => 6,
            Model::RfeWSub1GPlus => 10,
            Model::RfeProAudio => 11,
            Model::Rfe24GPlus => 12,
            Model::Rfe4GPlus => 13,
            Model::Rfe6GPlus => 14,
            Model::RfeMW5G3G => 16,
            Model::RfeMW5G4G => 17,
            Model::RfeMW5G5G => 18,
            Model::Unknown => 19,
        }
    }

    /// True for the 'Plus' models, which can change the number of points in a sweep.
    pub fn is_plus_model(&self) -> (r: bool)
        ensures
            r == is_plus(*self),
    {
        match self {
            Model::RfeWSub1GPlus | Model::RfeProAudio | Model::Rfe24GPlus | Model::Rfe4GPlus
            | Model::Rfe6GPlus | Model::RfeMW5G3G | Model::RfeMW5G4G | Model::RfeMW5G5G => true,
            _ => false,
        }
    }

    /// True for the models that have the Wi-Fi analyzer mode.
    pub fn has_wifi_analyzer(&self) -> (r: bool)
        ensures
            r == (*self == Model::Rfe24G || *self == Model::RfeWSub3G || *self == Model::Rfe6G
                || *self == Model::Rfe24GPlus || *self == Model::Rfe4GPlus || *self
                == Model::Rfe6GPlus),
    {
        // The IoT module MWSub3G reports itself as a WSub3G but has no Wi-Fi
        // analyzer mode, unlike the regular WSub3G models.
        match self {
            Model::Rfe24G | Model::RfeWSub3G | Model::Rfe6G | Model::Rfe24GPlus
            | Model::Rfe4GPlus | Model::Rfe6GPlus => true,
            _ => false,
        }
    }

    /// The lowest frequency that the model measures.
    pub fn min_freq(&self) -> (f: Frequency)
        ensures
            f.hz == min_freq_hz(*self),
    {
        Frequency::from_hz(
            match self {
                Model::Rfe433M => 430_000_000,
                Model::Rfe868M => 860_000_000,
                Model::Rfe915M => 910_000_000,
                Model::RfeWSub1G => 240_000_000,
                Model::RfeWSub1GPlus => 50_000,
                Model::Rfe24G | Model::Rfe24GPlus => 2_350_000_000,
                Model::RfeWSub3G | Model::RfeProAudio | Model::RfeMW5G3G | Model::RfeMW5G4G
                | Model::RfeMW5G5G => 15_000_000,
                Model::Rfe6G => 4_850_000_000,
                Model::Rfe4GPlus | Model::Rfe6GPlus => 240_000_000,
                Model::Unknown => u64::MIN,
            },
        )
    }

    /// The highest frequency that the model measures.
    pub fn max_freq(&self) -> (f: Frequency)
        ensures
            f.hz == max_freq_hz(*self),
    {
        Frequency::from_hz(
            match self {
                Model::Rfe433M => 440_000_000,
                Model::Rfe868M => 870_000_000,
                Model::Rfe915M => 920_000_000,
                Model::RfeWSub1G | Model::RfeWSub1GPlus => 960_000_000,
                Model::Rfe24G | Model::Rfe24GPlus => 2_550_000_000,
                Model::RfeWSub3G | Model::RfeProAudio => 2_700_000_000,
                Model::Rfe4GPlus => 4_000_000_000,
                Model::Rfe6G | Model::Rfe6GPlus => 6_100_000_000,
                Model::RfeMW5G3G => 3_000_000_000,
                Model::RfeMW5G4G => 4_000_000_000,
                Model::RfeMW5G5G => 5_000_000_000,
                Model::Unknown => u64::MAX,
            },
        )
    }

    /// The narrowest span that the model measures.
    pub fn min_span(&self) -> (f: Frequency)
        ensures
            f.hz == min_span_hz(*self),
    {
        Frequency::from_hz(
            match self {
                // The minimum spans of the MW5G models are not documented.
                Model::Rfe433M | Model::Rfe868M | Model::Rfe915M | Model::RfeWSub1G
                | Model::RfeWSub3G | Model::RfeProAudio | Model::RfeMW5G3G | Model::RfeMW5G4G
                | Model::RfeMW5G5G => 112_000,
                Model::RfeWSub1GPlus => 100_000,
                Model::Rfe24G | Model::Rfe24GPlus | Model::Rfe4GPlus | Model::Rfe6G
                | Model::Rfe6GPlus => 2_000_000,
                Model::Unknown => u64::MIN,
            },
        )
    }

    /// The widest span that the model measures.
    pub fn max_span(&self) -> (f: Frequency)
        ensures
            f.hz == max_span_hz(*self),
    {
        Frequency::from_hz(
            match self {
                Model::Rfe433M | Model::Rfe868M | Model::Rfe915M => 10_000_000,
                Model::Rfe24G | Model::Rfe24GPlus => 85_000_000,
                // The maximum spans of the MW5G models are not documented.
                Model::RfeWSub1G | Model::RfeMW5G3G | Model::RfeMW5G4G | Model::RfeMW5G5G =>
                    300_000_000,
                Model::RfeWSub3G | Model::RfeProAudio | Model::Rfe6G => 600_000_000,
                Model::RfeWSub1GPlus => 959_950_000,
                Model::Rfe4GPlus | Model::Rfe6GPlus => 960_000_000,
                Model::Unknown => u64::MAX,
            },
        )
    }

    /// The name of the model, as the device shows it.
    pub fn name(&self) -> (s: &'static str)
        ensures
            s@ == model_name(*self),
    {
        match self {
            Model::Rfe433M => "433M",
            Model::Rfe868M => "868M",
            Model::Rfe915M => "915M",
            Model::RfeWSub1G => "WSUB1G",
            Model::Rfe24G => "2.4G",
            Model::RfeWSub3G => "WSUB3G",
            Model::Rfe6G => "6G",
            Model::RfeWSub1GPlus => "WSUB1G+",
            Model::RfeProAudio => "Pro Audio",
            Model::Rfe24GPlus => "2.4G+",
            Model::Rfe4GPlus => "4G+",
            Model::Rfe6GPlus => "6G+",
            Model::RfeMW5G3G => "MW5G 3GHz",
            Model::RfeMW5G4G => "MW5G 4GHz",
            Model::RfeMW5G5G => "MW5G 5GHz",
            Model::Unknown => "Unknown",
        }
    }
}

/// The device's numbering of the spectrum analyzer models: 0 to 6 for the
/// first seven models, 10 to 14 for the 'Plus' generation, 16 to 18 for the
/// MW5G modules, 19 to 254 for models this library does not know, and no
/// model for 7, 8, 9, 15 and 255. Reading a number and writing a model follow
/// it both ways.
pub proof fn lemma_model_numbering()
    ensures
        model_from_code(0) == Some(Model::Rfe433M),
        model_from_code(1) == Some(Model::Rfe868M),
        model_from_code(2) == Some(Model::Rfe915M),
        model_from_code(3) == Some(Model::RfeWSub1G),
        model_from_code(4) == Some(Model::Rfe24G),
        model_from_code(5) == Some(Model::RfeWSub3G),
        model_from_code(6) == Some(Model::Rfe6G),
        model_from_code(10) == Some(Model::RfeWSub1GPlus),
        model_from_code(11) == Some(Model::RfeProAudio),
        model_from_code(12) == Some(Model::Rfe24GPlus),
        model_from_code(13) == Some(Model::Rfe4GPlus),
        model_from_code(14) == Some(Model::Rfe6GPlus),
        model_from_code(16) == Some(Model::RfeMW5G3G),
        model_from_code(17) == Some(Model::RfeMW5G4G),
        model_from_code(18) == Some(Model::RfeMW5G5G),
        forall|c: u8| 19 <= c <= 254 ==> model_from_code(c) == Some(Model::Unknown),
        forall|c: u8|
            c == 7 || c == 8 || c == 9 || c == 15 || c == 255 ==> model_from_code(c) is None,
        forall|m: Model| m != Model::Unknown ==> #[trigger] model_from_code(model_code(m)) == Some(m),
        model_code(Model::Unknown) == 19,
{
}

/// The frequency and span ranges of each model, in hertz, as RF Explorer
/// documents them.
pub proof fn lemma_model_bands()
    ensures
        min_freq_hz(Model::Rfe433M) == 430_000_000 && max_freq_hz(Model::Rfe433M) == 440_000_000,
        min_freq_hz(Model::Rfe868M) == 860_000_000 && max_freq_hz(Model::Rfe868M) == 870_000_000,
        min_freq_hz(Model::Rfe915M) == 910_000_000 && max_freq_hz(Model::Rfe915M) == 920_000_000,
        min_freq_hz(Model::RfeWSub1G) == 240_000_000 && max_freq_hz(Model::RfeWSub1G)
            == 960_000_000,
        min_freq_hz(Model::RfeWSub1GPlus) == 50_000 && max_freq_hz(Model::RfeWSub1GPlus)
            == 960_000_000,
        min_freq_hz(Model::Rfe24G) == 2_350_000_000 && max_freq_hz(Model::Rfe24G)
            == 2_550_000_000,
        min_freq_hz(Model::Rfe24GPlus) == 2_350_000_000 && max_freq_hz(Model::Rfe24GPlus)
            == 2_550_000_000,
        min_freq_hz(Model::RfeWSub3G) == 15_000_000 && max_freq_hz(Model::RfeWSub3G)
            == 2_700_000_000,
        min_freq_hz(Model::RfeProAudio) == 15_000_000 && max_freq_hz(Model::RfeProAudio)
            == 2_700_000_000,
        min_freq_hz(Model::RfeMW5G3G) == 15_000_000 && max_freq_hz(Model::RfeMW5G3G)
            == 3_000_000_000,
        min_freq_hz(Model::RfeMW5G4G) == 15_000_000 && max_freq_hz(Model::RfeMW5G4G)
            == 4_000_000_000,
        min_freq_hz(Model::RfeMW5G5G) == 15_000_000 && max_freq_hz(Model::RfeMW5G5G)
            == 5_000_000_000,
        min_freq_hz(Model::Rfe6G) == 4_850_000_000 && max_freq_hz(Model::Rfe6G)
            == 6_100_000_000,
        min_freq_hz(Model::Rfe4GPlus) == 240_000_000 && max_freq_hz(Model::Rfe4GPlus)
            == 4_000_000_000,
        min_freq_hz(Model::Rfe6GPlus) == 240_000_000 && max_freq_hz(Model::Rfe6GPlus)
            == 6_100_000_000,
        min_freq_hz(Model::Unknown) == 0 && max_freq_hz(Model::Unknown) == u64::MAX,
        forall|m: Model|
            #![trigger min_span_hz(m)]
            m != Model::Unknown ==> (min_span_hz(m) == 100_000 <==> m == Model::RfeWSub1GPlus)
                && (min_span_hz(m) == 2_000_000 <==> (m == Model::Rfe24G || m == Model::Rfe24GPlus
                || m == Model::Rfe4GPlus || m == Model::Rfe6G || m == Model::Rfe6GPlus))
                && (min_span_hz(m) == 112_000 || min_span_hz(m) == 100_000 || min_span_hz(m)
                == 2_000_000),
        max_span_hz(Model::Rfe433M) == 10_000_000 && max_span_hz(Model::Rfe868M) == 10_000_000
            && max_span_hz(Model::Rfe915M) == 10_000_000,
        max_span_hz(Model::Rfe24G) == 85_000_000 && max_span_hz(Model::Rfe24GPlus) == 85_000_000,
        max_span_hz(Model::RfeWSub1G) == 300_000_000 && max_span_hz(Model::RfeMW5G3G)
            == 300_000_000 && max_span_hz(Model::RfeMW5G4G) == 300_000_000 && max_span_hz(
            Model::RfeMW5G5G,
        ) == 300_000_000,
        max_span_hz(Model::RfeWSub3G) == 600_000_000 && max_span_hz(Model::RfeProAudio)
            == 600_000_000 && max_span_hz(Model::Rfe6G) == 600_000_000,
        max_span_hz(Model::RfeWSub1GPlus) == 959_950_000,
        max_span_hz(Model::Rfe4GPlus) == 960_000_000 && max_span_hz(Model::Rfe6GPlus)
            == 960_000_000,
        min_span_hz(Model::Unknown) == 0 && max_span_hz(Model::Unknown) == u64::MAX,
{
}

/// Each model named after a frequency measures that frequency: 433, 868 and
/// 915 MHz, 2.4 GHz for the 2.4G models and 6 GHz for the 6G models.
pub proof fn lemma_named_band_is_measured()
    ensures
        min_freq_hz(Model::Rfe433M) <= 433_000_000 <= max_freq_hz(Model::Rfe433M),
        min_freq_hz(Model::Rfe868M) <= 868_000_000 <= max_freq_hz(Model::Rfe868M),
        min_freq_hz(Model::Rfe915M) <= 915_000_000 <= max_freq_hz(Model::Rfe915M),
        min_freq_hz(Model::Rfe24G) <= 2_400_000_000 <= max_freq_hz(Model::Rfe24G),
        min_freq_hz(Model::Rfe24GPlus) <= 2_400_000_000 <= max_freq_hz(Model::Rfe24GPlus),
        min_freq_hz(Model::Rfe6G) <= 6_000_000_000 <= max_freq_hz(Model::Rfe6G),
        min_freq_hz(Model::Rfe6GPlus) <= 6_000_000_000 <= max_freq_hz(Model::Rfe6GPlus),
{
}

/// Every model's frequency range and span range are well-formed: the lowest
/// frequency is at most the highest, the narrowest span is at most the widest,
/// and the widest span fits between the lowest and the highest frequency.
pub proof fn lemma_model_ranges(model: Model)
    ensures
        min_freq_hz(model) <= max_freq_hz(model),
        min_span_hz(model) <= max_span_hz(model),
        max_span_hz(model) <= max_freq_hz(model) - min_freq_hz(model),
{
}

/// Reading a model's code back gives the model.
pub proof fn lemma_model_code_roundtrip(model: Model)
    ensures
        model_from_code(model_code(model)) == Some(model),
{
}

/// Different models have different names.
pub proof fn lemma_model_names_distinct(m1: Model, m2: Model)
    requires
        m1 != m2,
    ensures
        model_name(m1) != model_name(m2),
{
    reveal_strlit("433M");
    reveal_strlit("868M");
    reveal_strlit("915M");
    reveal_strlit("WSUB1G");
    reveal_strlit("2.4G");
    reveal_strlit("WSUB3G");
    reveal_strlit("6G");
    reveal_strlit("WSUB1G+");
    reveal_strlit("Pro Audio");
    reveal_strlit("2.4G+");
    reveal_strlit("4G+");
    reveal_strlit("6G+");
    reveal_strlit("MW5G 3GHz");
    reveal_strlit("MW5G 4GHz");
    reveal_strlit("MW5G 5GHz");
    reveal_strlit("Unknown");
    if model_name(m1) == model_name(m2) {
        assert(model_name(m1).len() == model_name(m2).len());
        assert(model_name(m1)[0] == model_name(m2)[0]);
        assert(model_name(m1)[model_name(m1).len() - 1] == model_name(m2)[model_name(m2).len() - 1]);
        assert(model_name(m1)[1] == model_name(m2)[1]);
        if model_name(m1).len() > 5 {
            assert(model_name(m1)[4] == model_name(m2)[4]);
            assert(model_name(m1)[5] == model_name(m2)[5]);
        }
    }
}

} // verus!
