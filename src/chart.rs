//! The chart pipeline: path, time conversion, Sun, Moon, ascendant, signs.
//!
//! The engine's calls are made by a driver; this module decides what is asked
//! next and what comes out. A run starts at `ChartStage::start()`. At each
//! stage the driver makes the engine request that the stage names, turns the
//! result into an `EngineReply` and hands it to `advance`, until a
//! `ChartStep::Finished` carries the chart or the first failure.
use vstd::prelude::*;
use crate::engine::{diagnostic_text, is_time_outcome};
use crate::error::AstroError;
use crate::sign::{lemma_name_in_table, sign_name_from_longitude, sign_names, sign_of_spec, Longitude};

verus! {

/// The signs of the Sun, the Moon and the ascendant, by lower-case name.
#[derive(Clone, Debug, PartialEq, Eq)]
pub struct CoreChart {
    pub sun_sign: String,
    pub moon_sign: String,
    pub asc_sign: String,
}

impl CoreChart {
    /// The chart names the signs of these three longitudes.
    pub open spec fn shows(self, sun: Longitude, moon: Longitude, asc: Longitude) -> bool {
        &&& self.sun_sign@ == sign_of_spec(sun.millidegrees as int).name_spec()
        &&& self.moon_sign@ == sign_of_spec(moon.millidegrees as int).name_spec()
        &&& self.asc_sign@ == sign_of_spec(asc.millidegrees as int).name_spec()
    }

    /// Every field holds one of the twelve sign names.
    pub open spec fn signs_in_table(self) -> bool {
        &&& sign_names().contains(self.sun_sign@)
        &&& sign_names().contains(self.moon_sign@)
        &&& sign_names().contains(self.asc_sign@)
    }

    /// The two charts name the same signs.
    pub open spec fn same_signs(self, other: CoreChart) -> bool {
        &&& self.sun_sign@ == other.sun_sign@
        &&& self.moon_sign@ == other.moon_sign@
        &&& self.asc_sign@ == other.asc_sign@
    }

    /// The chart of the Sun, Moon and ascendant longitudes.
    pub fn from_longitudes(sun: Longitude, moon: Longitude, asc: Longitude) -> (r: CoreChart)
        ensures
            r.shows(sun, moon, asc),
            r.signs_in_table(),
    {
        CoreChart {
            sun_sign: sign_name_from_longitude(sun),
            moon_sign: sign_name_from_longitude(moon),
            asc_sign: sign_name_from_longitude(asc),
        }
    }
}

/// Where a run stands; each stage names the engine request to make next.
#[derive(Clone, Copy, Debug, PartialEq, Eq, Structural)]
pub enum ChartStage {
    /// Push the stored ephemeris path to the engine.
    ApplyPath,
    /// Convert the birth moment (UTC) to a Julian Day in Universal Time.
    JulianDay,
    /// Query the Sun's ecliptic longitude at that time.
    SunLongitude,
    /// Query the Moon's ecliptic longitude at that time.
    MoonLongitude { sun: Longitude },
    /// Compute the Placidus houses at that time and place for the ascendant.
    Ascendant { sun: Longitude, moon: Longitude },
}

/// What the engine gave for the request of a stage.
#[derive(Clone, Debug, PartialEq, Eq)]
pub enum EngineReply {
    /// The path was applied, or the time converted.
    Ready,
    /// The longitude that a query gave.
    Longitude(Longitude),
    /// The request failed.
    Failed(AstroError),
}

/// The result of handing a reply to a stage.
#[derive(Debug, PartialEq, Eq)]
pub enum ChartStep {
    /// The run goes on at this stage.
    Next(ChartStage),
    /// The run is over, with the chart or the first failure.
    Finished(Result<CoreChart, AstroError>),
}

/// The reply for a request that yields no value.
pub open spec fn reply_of_status(o: Result<(), AstroError>) -> EngineReply {
    match o {
        Ok(_) => EngineReply::Ready,
        Err(e) => EngineReply::Failed(e),
    }
}

/// The reply for a request that yields a longitude.
pub open spec fn reply_of_longitude(o: Result<Longitude, AstroError>) -> EngineReply {
    match o {
        Ok(l) => EngineReply::Longitude(l),
        Err(e) => EngineReply::Failed(e),
    }
}

impl EngineReply {
    /// The reply for the outcome of applying the path or converting the time.
    pub fn from_status(o: Result<(), AstroError>) -> (r: EngineReply)
        ensures
            r == reply_of_status(o),
    {
        match o {
            Ok(_) => EngineReply::Ready,
            Err(e) => EngineReply::Failed(e),
        }
    }

    /// The reply for the outcome of a longitude query.
    pub fn from_longitude(o: Result<Longitude, AstroError>) -> (r: EngineReply)
        ensures
            r == reply_of_longitude(o),
    {
        match o {
            Ok(l) => EngineReply::Longitude(l),
            Err(e) => EngineReply::Failed(e),
        }
    }
}

impl ChartStage {
    /// Whether `reply` is of the kind that this stage's request gives: a
    /// failure, or else `Ready` for the path and the time and a longitude for
    /// the three queries.
    pub open spec fn accepts_spec(self, reply: EngineReply) -> bool {
        match reply {
            EngineReply::Failed(_) => true,
            EngineReply::Ready => self is ApplyPath || self is JulianDay,
            EngineReply::Longitude(_) => !(self is ApplyPath || self is JulianDay),
        }
    }

    /// The step that a reply at this stage leads to: a failure ends the run
    /// with that failure; otherwise the run moves to the next request, and the
    /// ascendant completes the chart.
    pub open spec fn steps_to(self, reply: EngineReply, r: ChartStep) -> bool {
        match reply {
            EngineReply::Failed(e) => r == ChartStep::Finished(Err(e)),
            EngineReply::Ready => match self {
                ChartStage::ApplyPath => r == ChartStep::Next(ChartStage::JulianDay),
                _ => r == ChartStep::Next(ChartStage::SunLongitude),
            },
            EngineReply::Longitude(l) => match self {
                ChartStage::MoonLongitude { sun } => r == ChartStep::Next(
                    ChartStage::Ascendant { sun, moon: l },
                ),
                ChartStage::Ascendant { sun, moon } => {
                    &&& r is Finished
                    &&& r->Finished_0 is Ok
                    &&& r->Finished_0->Ok_0.shows(sun, moon, l)
                },
                _ => r == ChartStep::Next(ChartStage::MoonLongitude { sun: l }),
            },
        }
    }

    /// The first stage of a run.
    pub fn start() -> (r: ChartStage)
        ensures
            r == ChartStage::ApplyPath,
    {
        ChartStage::ApplyPath
    }

    /// Whether `reply` is of the kind that this stage's request gives.
    pub fn accepts(&self, reply: &EngineReply) -> (r: bool)
        ensures
            r == self.accepts_spec(*reply),
    {
        match reply {
            EngineReply::Failed(_) => true,
            EngineReply::Ready => match self {
                ChartStage::ApplyPath => true,
                ChartStage::JulianDay => true,
                _ => false,
            },
            EngineReply::Longitude(_) => match self {
                ChartStage::ApplyPath => false,
                ChartStage::JulianDay => false,
                _ => true,
            },
        }
    }

    /// Hands the engine's reply for this stage's request to the run.
    pub fn advance(self, reply: EngineReply) -> (r: ChartStep)
        requires
            self.accepts_spec(reply),
        ensures
            self.steps_to(reply, r),
            r is Finished && r->Finished_0 is Ok ==> r->Finished_0->Ok_0.signs_in_table(),
    {
        match reply {
            EngineReply::Failed(e) => ChartStep::Finished(Err(e)),
            EngineReply::Ready => match self {
                ChartStage::ApplyPath => ChartStep::Next(ChartStage::JulianDay),
                _ => ChartStep::Next(ChartStage::SunLongitude),
            },
            EngineReply::Longitude(l) => match self {
                ChartStage::MoonLongitude { sun } => ChartStep::Next(
                    ChartStage::Ascendant { sun, moon: l },
                ),
                ChartStage::Ascendant { sun, moon } => ChartStep::Finished(
                    Ok(CoreChart::from_longitudes(sun, moon, l)),
                ),
                _ => ChartStep::Next(ChartStage::MoonLongitude { sun: l }),
            },
        }
    }
}

/// A run never finishes with a chart whose fields are outside the twelve sign
/// names.
pub proof fn lemma_finished_chart_in_table(stage: ChartStage, reply: EngineReply, r: ChartStep)
    requires
        stage.steps_to(reply, r),
        r is Finished,
        r->Finished_0 is Ok,
    ensures
        r->Finished_0->Ok_0.signs_in_table(),
{
    if let (ChartStage::Ascendant { sun, moon }, EngineReply::Longitude(l)) = (stage, reply) {
        lemma_name_in_table(sign_of_spec(sun.millidegrees as int));
        lemma_name_in_table(sign_of_spec(moon.millidegrees as int));
        lemma_name_in_table(sign_of_spec(l.millidegrees as int));
    }
}

/// The same reply at the same stage always leads to the same step, and a
/// finished chart always names the same signs: a run fed the same replies
/// makes the same requests and ends with the same result.
pub proof fn lemma_step_deterministic(stage: ChartStage, reply: EngineReply, r1: ChartStep, r2: ChartStep)
    requires
        stage.steps_to(reply, r1),
        stage.steps_to(reply, r2),
    ensures
        r1 is Next ==> r1 == r2,
        r1 is Finished <==> r2 is Finished,
        r1 is Finished && r1->Finished_0 is Err ==> r1 == r2,
        r1 is Finished && r1->Finished_0 is Ok ==> {
            &&& r2->Finished_0 is Ok
            &&& r1->Finished_0->Ok_0.same_signs(r2->Finished_0->Ok_0)
        },
{
}

/// When the engine rejects the birth moment at the time conversion (a negative
/// status, as for a month of 13), the run ends with an engine error carrying
/// the engine's diagnostic, and with no chart.
pub proof fn lemma_rejected_time_ends_run(
    status: i32,
    diagnostic: Seq<u8>,
    o: Result<(), AstroError>,
    r: ChartStep,
)
    requires
        status < 0,
        is_time_outcome(status, diagnostic, o),
        ChartStage::JulianDay.steps_to(reply_of_status(o), r),
    ensures
        r is Finished,
        r->Finished_0 is Err,
        r->Finished_0->Err_0.is_ephemeris_with(diagnostic_text(diagnostic)),
{
}

} // verus!
