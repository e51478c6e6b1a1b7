//! Runtime configuration of the pet simulation.
use vstd::prelude::*;

verus! {

/// Shellagotchi runtime configuration.
#[derive(Clone, Debug, PartialEq)]
pub struct Config {
    pub pet_name: String,
    pub boredom_after_minutes: u32,
    pub sleep_start_hour: u32,
    pub wake_hour: u32,
    pub poop_interval_commands: u32,
    pub unicode: bool,
    pub junk_food_commands: Vec<String>,
    /// Commands whose argv0 triggers an automatic pet cleanup in
    /// [`crate::pet::engine::feed`].
    pub clean_commands: Vec<String>,
    pub ignored_exit_codes: Vec<i32>,
    pub bad_food_meter_decay_per_hour: u32,
    /// Caps how many milliseconds of elapsed real time
    /// [`crate::pet::engine::catch_up`] will simulate in one go. `None`
    /// disables the cap entirely: the full gap is simulated, however long.
    pub max_offline_millis: Option<i64>,
    /// How often (in seconds) the daemon's main loop ticks the pet forward.
    pub tick_interval_secs: u64,
}

/// The mathematical model of a [`Config`].
#[verifier::ext_equal]
pub struct ConfigView {
    pub pet_name: Seq<char>,
    pub boredom_after_minutes: nat,
    pub sleep_start_hour: nat,
    pub wake_hour: nat,
    pub poop_interval_commands: nat,
    pub unicode: bool,
    pub junk_food_commands: Seq<Seq<char>>,
    pub clean_commands: Seq<Seq<char>>,
    pub ignored_exit_codes: Seq<i32>,
    pub bad_food_meter_decay_per_hour: nat,
    pub max_offline_millis: Option<int>,
    pub tick_interval_secs: nat,
}

impl View for Config {
    type V = ConfigView;

    open spec fn view(&self) -> ConfigView {
        ConfigView {
            pet_name: self.pet_name@,
            boredom_after_minutes: self.boredom_after_minutes as nat,
            sleep_start_hour: self.sleep_start_hour as nat,
            wake_hour: self.wake_hour as nat,
            poop_interval_commands: self.poop_interval_commands as nat,
            unicode: self.unicode,
            junk_food_commands: self.junk_food_commands@.map_values(|s: String| s@),
            clean_commands: self.clean_commands@.map_values(|s: String| s@),
            ignored_exit_codes: self.ignored_exit_codes@,
            bad_food_meter_decay_per_hour: self.bad_food_meter_decay_per_hour as nat,
            max_offline_millis: match self.max_offline_millis {
                Some(m) => Some(m as int),
                None => None,
            },
            tick_interval_secs: self.tick_interval_secs as nat,
        }
    }
}

/// Twelve hours, in milliseconds: the default cap on simulated offline time.
pub const DEFAULT_MAX_OFFLINE_MILLIS: i64 = 43_200_000;

/// The default configuration, field by field.
pub open spec fn default_config_view() -> ConfigView {
    ConfigView {
        pet_name: "Pet"@,
        boredom_after_minutes: 45,
        sleep_start_hour: 23,
        wake_hour: 7,
        poop_interval_commands: 40,
        unicode: true,
        junk_food_commands: seq!["rm"@, "kill"@, "pkill"@, "dd"@],
        clean_commands: seq!["clean"@, "shellagotchi-clean"@],
        ignored_exit_codes: seq![130i32],
        bad_food_meter_decay_per_hour: 1,
        max_offline_millis: Some(DEFAULT_MAX_OFFLINE_MILLIS as int),
        tick_interval_secs: 60,
    }
}

impl Default for Config {
    fn default() -> (c: Config)
        ensures
            c@ == default_config_view(),
    {
        let junk = vec![
            String::from_str("rm"),
            String::from_str("kill"),
            String::from_str("pkill"),
            String::from_str("dd"),
        ];
        let clean = vec![String::from_str("clean"), String::from_str("shellagotchi-clean")];
        let c = Config {
            pet_name: String::from_str("Pet"),
            boredom_after_minutes: 45,
            sleep_start_hour: 23,
            wake_hour: 7,
            poop_interval_commands: 40,
            unicode: true,
            junk_food_commands: junk,
            clean_commands: clean,
            ignored_exit_codes: vec![130],
            bad_food_meter_decay_per_hour: 1,
            max_offline_millis: Some(DEFAULT_MAX_OFFLINE_MILLIS),
            tick_interval_secs: 60,
        };
        assert(c@.junk_food_commands =~= default_config_view().junk_food_commands);
        assert(c@.clean_commands =~= default_config_view().clean_commands);
        assert(c@.ignored_exit_codes =~= default_config_view().ignored_exit_codes);
        c
    }
}

} // verus!
