use vstd::prelude::*;

verus! {

/// Level bit that selects the database round trip.
pub const DB_ROUND_TRIP_BIT: u16 = 0b001;

/// Level bit that selects the configuration dump.
pub const CONFIG_DUMP_BIT: u16 = 0b010;

/// Level bit that selects the datetime parse and format demo.
pub const DATETIME_DEMO_BIT: u16 = 0b100;

/// One of the demos the program can run.
#[derive(Clone, Copy, Debug, PartialEq, Eq, Structural)]
pub enum Demo {
    DbRoundTrip,
    ConfigDump,
    DatetimeDemo,
}

/// Which demos run.
#[derive(Clone, Copy, Debug, PartialEq, Eq, Structural)]
pub struct DemoSet {
    pub db_round_trip: bool,
    pub config_dump: bool,
    pub datetime_demo: bool,
}

pub open spec fn demo_set_of(level: u16) -> DemoSet {
    DemoSet {
        db_round_trip: level & DB_ROUND_TRIP_BIT != 0,
        config_dump: level & CONFIG_DUMP_BIT != 0,
        datetime_demo: level & DATETIME_DEMO_BIT != 0,
    }
}

impl DemoSet {
    pub open spec fn contains_spec(&self, d: Demo) -> bool {
        match d {
            Demo::DbRoundTrip => self.db_round_trip,
            Demo::ConfigDump => self.config_dump,
            Demo::DatetimeDemo => self.datetime_demo,
        }
    }

    /// The selected demos in the order they run: round trip, dump, datetimes.
    pub open spec fn selected_spec(&self) -> Seq<Demo> {
        (if self.db_round_trip { seq![Demo::DbRoundTrip] } else { Seq::empty() })
            + (if self.config_dump { seq![Demo::ConfigDump] } else { Seq::empty() })
            + (if self.datetime_demo { seq![Demo::DatetimeDemo] } else { Seq::empty() })
    }

    /// The demos that the bits of `level` select.
    pub fn from_level(level: u16) -> (r: DemoSet)
        ensures
            r == demo_set_of(level),
    {
        DemoSet {
            db_round_trip: level & DB_ROUND_TRIP_BIT != 0,
            config_dump: level & CONFIG_DUMP_BIT != 0,
            datetime_demo: level & DATETIME_DEMO_BIT != 0,
        }
    }

    pub fn contains(&self, d: Demo) -> (r: bool)
        ensures
            r == self.contains_spec(d),
    {
        match d {
            Demo::DbRoundTrip => self.db_round_trip,
            Demo::ConfigDump => self.config_dump,
            Demo::DatetimeDemo => self.datetime_demo,
        }
    }

    /// The selected demos, in the order they run.
    pub fn selected(&self) -> (r: Vec<Demo>)
        ensures
            r@ == self.selected_spec(),
    {
        let mut r: Vec<Demo> = Vec::new();
        if self.db_round_trip {
            r.push(Demo::DbRoundTrip);
        }
        if self.config_dump {
            r.push(Demo::ConfigDump);
        }
        if self.datetime_demo {
            r.push(Demo::DatetimeDemo);
        }
        assert(r@ =~= self.selected_spec());
        r
    }
}

/// The default level runs the database round trip and nothing else.
pub proof fn lemma_default_level_selects_round_trip_only()
    ensures
        demo_set_of(crate::config::DEFAULT_LEVEL) == (DemoSet {
            db_round_trip: true,
            config_dump: false,
            datetime_demo: false,
        }),
{
    assert(1u16 & 0b001u16 != 0 && 1u16 & 0b010u16 == 0 && 1u16 & 0b100u16 == 0) by (bit_vector);
}

} // verus!
