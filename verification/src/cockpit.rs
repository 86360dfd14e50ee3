//! The driver's cockpit: the signal cells of every control and telltale.
//!
//! The cockpit aggregates the cells its controls commit into; the host
//! adapter steps the individual button, switch and handle machines and the
//! wiring layer reads and forwards the cells.  A telltale lamp shows the
//! battery voltage while its own line or the lamp test asks for it.

use vstd::prelude::*;

use crate::cockpit_types::{BlinkerSwitch, DoorSwitch, OutsideLightSwitch, RichtungswenderState};
use crate::standard_elements::Shared;
use crate::tech_elements::cockpit_simple::ButtonTwoSidedSpringLoadedState;

verus! {

/// The signal cells of the leading cockpit.
pub struct CockpitState {
    /// Lamp-test button line.
    pub lightcheck: Shared<bool>,
    /// Direction selector position.
    pub richtungswender: Shared<RichtungswenderState>,
    /// Combined handle demand, in `[-SCALE, SCALE]`.
    pub sollwertgeber: Shared<i64>,
    /// Pantograph raise/lower button.
    pub pantograph: Shared<ButtonTwoSidedSpringLoadedState>,
    /// Main-switch on/off button.
    pub hauptschalter: Shared<ButtonTwoSidedSpringLoadedState>,
    /// Parking-brake override latch.
    pub federspeicher_overwrite: Shared<bool>,
    /// Sanding button line.
    pub sanden: Shared<bool>,
    /// Rail-brake button line.
    pub mg_bremse: Shared<bool>,
    /// Outside-light switch position.
    pub beleuchtung_aussen: Shared<OutsideLightSwitch>,
    /// Cockpit-light switch position.
    pub beleuchtung_fahrerraum: Shared<i8>,
    /// Passenger-compartment light switch.
    pub beleuchtung_fahrgastraum: Shared<bool>,
    /// Indicator lever position.
    pub blinker: Shared<BlinkerSwitch>,
    /// Hazard-light latch.
    pub warnblinker: Shared<bool>,
    /// Bell button line.
    pub klingel: Shared<bool>,
    /// Door switch position.
    pub tueren: Shared<DoorSwitch>,
    /// Buggy-request reset button.
    pub kinderwagen: Shared<bool>,
    /// Wheelchair-request reset button.
    pub rollstuhl: Shared<bool>,
    /// Driver's vigilance button.
    pub sifa: Shared<bool>,
    /// Wiper switch position.
    pub scheibenwischer: Shared<i8>,
    /// Intercom talk/clear button.
    pub sprechstelle: Shared<ButtonTwoSidedSpringLoadedState>,
    /// Consist-configuration switch position.
    pub zugbildung: Shared<i8>,
    /// Lamp-test line of the telltales.
    pub lm_check: Shared<bool>,
    /// Parking-brake telltale.
    pub lm_federspeicher: Shared<bool>,
    /// High-beam telltale.
    pub lm_fernlicht: Shared<bool>,
    /// Right-indicator telltale.
    pub lm_blinker_rechts: Shared<bool>,
    /// Left-indicator telltale.
    pub lm_blinker_links: Shared<bool>,
    /// Hazard telltale.
    pub lm_warnblinker: Shared<bool>,
    /// Doors-closed telltale.
    pub lm_doors_closed: Shared<bool>,
    /// Stop-request telltale.
    pub lm_haltewunsch: Shared<bool>,
    /// Buggy-request telltale.
    pub lm_kinderwagen: Shared<bool>,
    /// Wheelchair-request telltale.
    pub lm_rollstuhl: Shared<bool>,
    /// Rail-brake telltale.
    pub lm_schienenbremse: Shared<bool>,
    /// Vigilance telltale.
    pub lm_sifa: Shared<bool>,
    /// Intercom telltale.
    pub lm_sprechstelle: Shared<bool>,
    /// Main-switch telltale.
    pub lm_hauptschalter: Shared<bool>,
    /// Emergency-start telltale.
    pub lm_notstart: Shared<bool>,
    /// Emergency-lower telltale.
    pub lm_notablegen: Shared<bool>,
}

/// The rear cockpit: nothing of it is modelled yet.
pub struct CockpitRearState {}

/// A fresh cockpit: every control at rest, every telltale dark.
pub fn add_cockpit() -> (s: CockpitState)
    ensures
        s.richtungswender.value == RichtungswenderState::O,
        s.sollwertgeber.value == 0,
        s.tueren.value == DoorSwitch::Closed,
        s.blinker.value == BlinkerSwitch::Off,
        s.beleuchtung_aussen.value == OutsideLightSwitch::Off,
        !s.lightcheck.value,
        !s.federspeicher_overwrite.value,
        !s.warnblinker.value,
        !s.sanden.value,
        !s.mg_bremse.value,
        !s.lm_check.value,
{
    CockpitState {
        lightcheck: Shared::new(false),
        richtungswender: Shared::new(RichtungswenderState::O),
        sollwertgeber: Shared::new(0),
        pantograph: Shared::new(ButtonTwoSidedSpringLoadedState::Released),
        hauptschalter: Shared::new(ButtonTwoSidedSpringLoadedState::Released),
        federspeicher_overwrite: Shared::new(false),
        sanden: Shared::new(false),
        mg_bremse: Shared::new(false),
        beleuchtung_aussen: Shared::new(OutsideLightSwitch::Off),
        beleuchtung_fahrerraum: Shared::new(0),
        beleuchtung_fahrgastraum: Shared::new(false),
        blinker: Shared::new(BlinkerSwitch::Off),
        warnblinker: Shared::new(false),
        klingel: Shared::new(false),
        tueren: Shared::new(DoorSwitch::Closed),
        kinderwagen: Shared::new(false),
        rollstuhl: Shared::new(false),
        sifa: Shared::new(false),
        scheibenwischer: Shared::new(0),
        sprechstelle: Shared::new(ButtonTwoSidedSpringLoadedState::Released),
        zugbildung: Shared::new(0),
        lm_check: Shared::new(false),
        lm_federspeicher: Shared::new(false),
        lm_fernlicht: Shared::new(false),
        lm_blinker_rechts: Shared::new(false),
        lm_blinker_links: Shared::new(false),
        lm_warnblinker: Shared::new(false),
        lm_doors_closed: Shared::new(false),
        lm_haltewunsch: Shared::new(false),
        lm_kinderwagen: Shared::new(false),
        lm_rollstuhl: Shared::new(false),
        lm_schienenbremse: Shared::new(false),
        lm_sifa: Shared::new(false),
        lm_sprechstelle: Shared::new(false),
        lm_hauptschalter: Shared::new(false),
        lm_notstart: Shared::new(false),
        lm_notablegen: Shared::new(false),
    }
}

/// The level a telltale lamp shows: the battery voltage while its own line
/// or the lamp test asks for it, zero otherwise.
pub fn lamp_output(value: bool, lamp_test: bool, voltage: i64) -> (level: i64)
    ensures
        level == if value || lamp_test { voltage } else { 0i64 },
{
    if value || lamp_test {
        voltage
    } else {
        0
    }
}

} // verus!
