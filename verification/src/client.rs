//! What the GUI makes of the daemon's replies: the active power definition
//! with its fallbacks, and the hardware specification with its defaults.

use vstd::prelude::*;
use crate::power_model::{
    PowerMode, boost_of, description_of, epp_name, epp_of, get_definition, mode_name,
    mode_normal_form, mode_of_normal_form, profile_of,
};
use crate::text::owned;

verus! {

/// The active power definition as the daemon reports it.
#[derive(Debug, Clone, PartialEq, Eq)]
pub struct ActivePowerDefinition {
    pub mode: String,
    pub platform_profile: String,
    pub epp: String,
    pub boost: bool,
    pub description: String,
}

/// The view of a definition: mode, platform profile, EPP, boost, description.
pub open spec fn definition_view(d: ActivePowerDefinition) -> (Seq<char>, Seq<char>, Seq<char>, bool, Seq<char>) {
    (d.mode@, d.platform_profile@, d.epp@, d.boost, d.description@)
}

/// The static definition of a mode, as the GUI shows it.
pub open spec fn static_definition(m: PowerMode) -> (Seq<char>, Seq<char>, Seq<char>, bool, Seq<char>) {
    (mode_name(m), profile_of(m), epp_name(epp_of(m)), boost_of(m), description_of(m))
}

/// The definition shown when the daemon's reply gives none: the static
/// definition of the active mode when its name denotes one, otherwise the
/// active mode with unknown values.
pub open spec fn fallback_definition(active_mode: Seq<char>) -> (Seq<char>, Seq<char>, Seq<char>, bool, Seq<char>) {
    match mode_of_normal_form(mode_normal_form(active_mode)) {
        Some(m) => static_definition(m),
        None => (active_mode, "unknown"@, "unknown"@, false, "Unknown power mode"@),
    }
}

fn definition_of_mode(m: PowerMode) -> (r: ActivePowerDefinition)
    ensures
        definition_view(r) == static_definition(m),
{
    let d = get_definition(m);
    ActivePowerDefinition {
        mode: owned(m.as_str()),
        platform_profile: owned(d.platform_profile),
        epp: owned(d.epp.as_str()),
        boost: d.boost,
        description: owned(d.description),
    }
}

/// The definition to show for the active mode and what parsing the
/// daemon's definition reply gave: the parsed definition when it names a
/// mode, otherwise the fallback for the active mode.
pub fn parse_active_definition(active_mode: &str, parsed: Option<ActivePowerDefinition>) -> (r:
    ActivePowerDefinition)
    ensures
        match parsed {
            Some(d) if d.mode@.len() > 0 => r == d,
            _ => definition_view(r) == fallback_definition(active_mode@),
        },
{
    match parsed {
        Some(d) => {
            if d.mode.as_str().unicode_len() > 0 {
                return d;
            }
        },
        None => {},
    }
    match PowerMode::parse(active_mode) {
        Ok(m) => definition_of_mode(m),
        Err(_) => ActivePowerDefinition {
            mode: owned(active_mode),
            platform_profile: owned("unknown"),
            epp: owned("unknown"),
            boost: false,
            description: owned("Unknown power mode"),
        },
    }
}

/// Law: the fallback for a mode's own name is that mode's static definition.
pub proof fn lemma_fallback_is_static_definition(m: PowerMode)
    ensures
        fallback_definition(mode_name(m)) == static_definition(m),
{
    crate::power_model::lemma_mode_name_parses(m);
}

/// The hardware specification as the daemon reports it.
#[derive(Debug, Clone, PartialEq, Eq)]
pub struct HardwareSpecs {
    pub product_name: String,
    pub cpu_spec: String,
    pub gpu_spec: String,
    pub ram_spec: String,
    pub ssd_spec: String,
    pub os_spec: String,
    pub bios_version: String,
    pub ec_version: String,
    pub vbios_version: String,
    pub nvidia_driver: String,
    pub kernel_version: String,
}

impl std::default::Default for HardwareSpecs {
    fn default() -> (r: HardwareSpecs)
        ensures
            r.product_name@.len() == 0,
            r.cpu_spec@.len() == 0,
            r.gpu_spec@.len() == 0,
            r.ram_spec@.len() == 0,
            r.ssd_spec@.len() == 0,
            r.os_spec@.len() == 0,
            r.bios_version@.len() == 0,
            r.ec_version@.len() == 0,
            r.vbios_version@.len() == 0,
            r.nvidia_driver@.len() == 0,
            r.kernel_version@.len() == 0,
    {
        HardwareSpecs {
            product_name: String::new(),
            cpu_spec: String::new(),
            gpu_spec: String::new(),
            ram_spec: String::new(),
            ssd_spec: String::new(),
            os_spec: String::new(),
            bios_version: String::new(),
            ec_version: String::new(),
            vbios_version: String::new(),
            nvidia_driver: String::new(),
            kernel_version: String::new(),
        }
    }
}

/// A field, or its default when it is empty.
pub open spec fn or_default(v: Seq<char>, d: Seq<char>) -> Seq<char> {
    if v.len() == 0 {
        d
    } else {
        v
    }
}

fn fill(v: &mut String, d: &str)
    ensures
        final(v)@ == or_default(old(v)@, d@),
{
    if v.as_str().unicode_len() == 0 {
        *v = owned(d);
    }
}

impl HardwareSpecs {
    /// The specification with the shown defaults in place of empty fields:
    /// `HP Device`, `Unknown CPU`, `Unknown GPU`, `Unknown RAM`, `Unknown SSD`
    /// and `Linux`; the version fields are kept as they are.
    pub fn with_defaults(self) -> (r: HardwareSpecs)
        ensures
            r.product_name@ == or_default(self.product_name@, "HP Device"@),
            r.cpu_spec@ == or_default(self.cpu_spec@, "Unknown CPU"@),
            r.gpu_spec@ == or_default(self.gpu_spec@, "Unknown GPU"@),
            r.ram_spec@ == or_default(self.ram_spec@, "Unknown RAM"@),
            r.ssd_spec@ == or_default(self.ssd_spec@, "Unknown SSD"@),
            r.os_spec@ == or_default(self.os_spec@, "Linux"@),
            r.bios_version == self.bios_version,
            r.ec_version == self.ec_version,
            r.vbios_version == self.vbios_version,
            r.nvidia_driver == self.nvidia_driver,
            r.kernel_version == self.kernel_version,
    {
        let mut s = self;
        fill(&mut s.product_name, "HP Device");
        fill(&mut s.cpu_spec, "Unknown CPU");
        fill(&mut s.gpu_spec, "Unknown GPU");
        fill(&mut s.ram_spec, "Unknown RAM");
        fill(&mut s.ssd_spec, "Unknown SSD");
        fill(&mut s.os_spec, "Linux");
        s
    }
}

} // verus!
