use crate::input::Recordable;
use vstd::prelude::*;

verus! {

/// The switching of an automation toggle, on or off, as the recording of a
/// run notes it.
#[derive(Clone, Copy, Debug, PartialEq, Eq, Structural)]
pub enum AutoSettingTypes {
    AutoWorkTrue,
    AutoWorkFalse,
    AutoLivingTrue,
    AutoLivingFalse,
    AutoBuyItemTrue,
    AutoBuyItemFalse,
    AutoBuyBlessingTrue,
    AutoBuyBlessingFalse,
    AutoBuyTombTrue,
    AutoBuyTombFalse,
    AutoRebirthTrue,
    AutoRebirthFalse,
}

impl Recordable for AutoSettingTypes {
    open spec fn record_key(&self) -> Seq<char> {
        match self {
            AutoSettingTypes::AutoWorkTrue => "Auto Work True"@,
            AutoSettingTypes::AutoWorkFalse => "Auto Work False"@,
            AutoSettingTypes::AutoLivingTrue => "Auto Living True"@,
            AutoSettingTypes::AutoLivingFalse => "Auto Living False"@,
            AutoSettingTypes::AutoBuyItemTrue => "Auto Buy Item True"@,
            AutoSettingTypes::AutoBuyItemFalse => "Auto Buy Item False"@,
            AutoSettingTypes::AutoBuyBlessingTrue => "Auto Buy Blessing True"@,
            AutoSettingTypes::AutoBuyBlessingFalse => "Auto Buy Blessing False"@,
            AutoSettingTypes::AutoBuyTombTrue => "Auto Buy Tomb True"@,
            AutoSettingTypes::AutoBuyTombFalse => "Auto Buy Tomb False"@,
            AutoSettingTypes::AutoRebirthTrue => "Auto Rebirth True"@,
            AutoSettingTypes::AutoRebirthFalse => "Auto Rebirth False"@,
        }
    }

    fn to_record_key(&self) -> (key: String) {
        match self {
            AutoSettingTypes::AutoWorkTrue => "Auto Work True",
            AutoSettingTypes::AutoWorkFalse => "Auto Work False",
            AutoSettingTypes::AutoLivingTrue => "Auto Living True",
            AutoSettingTypes::AutoLivingFalse => "Auto Living False",
            AutoSettingTypes::AutoBuyItemTrue => "Auto Buy Item True",
            AutoSettingTypes::AutoBuyItemFalse => "Auto Buy Item False",
            AutoSettingTypes::AutoBuyBlessingTrue => "Auto Buy Blessing True",
            AutoSettingTypes::AutoBuyBlessingFalse => "Auto Buy Blessing False",
            AutoSettingTypes::AutoBuyTombTrue => "Auto Buy Tomb True",
            AutoSettingTypes::AutoBuyTombFalse => "Auto Buy Tomb False",
            AutoSettingTypes::AutoRebirthTrue => "Auto Rebirth True",
            AutoSettingTypes::AutoRebirthFalse => "Auto Rebirth False",
        }.to_owned()
    }
}

/// The player's settings. The engine reads them and never changes them.
#[derive(Clone, Copy, Debug)]
pub struct Options {
    pub auto_work: bool,
    pub auto_living: bool,
    pub auto_buy_item: bool,
    pub auto_buy_blessing: bool,
    pub auto_buy_tomb: bool,
    pub auto_rebirth: bool,
    pub auto_end_early: bool,
    /// The age in days at which a run is to end early.
    pub auto_end_early_criteria: u32,
    pub show_bought_items: bool,
    pub show_bought_upgrades: bool,
    pub show_recorded: bool,
    pub paused: bool,
}

impl Options {
    /// Every toggle off.
    pub open spec fn all_off() -> Options {
        Options {
            auto_work: false,
            auto_living: false,
            auto_buy_item: false,
            auto_buy_blessing: false,
            auto_buy_tomb: false,
            auto_rebirth: false,
            auto_end_early: false,
            auto_end_early_criteria: 0,
            show_bought_items: false,
            show_bought_upgrades: false,
            show_recorded: false,
            paused: false,
        }
    }
}

impl Default for Options {
    fn default() -> (options: Options)
        ensures
            options == Options::all_off(),
    {
        Options {
            auto_work: false,
            auto_living: false,
            auto_buy_item: false,
            auto_buy_blessing: false,
            auto_buy_tomb: false,
            auto_rebirth: false,
            auto_end_early: false,
            auto_end_early_criteria: 0,
            show_bought_items: false,
            show_bought_upgrades: false,
            show_recorded: false,
            paused: false,
        }
    }
}

} // verus!
