//! One sounding: the fields accumulated from its record lines, its
//! observations in input order, and the properties derived after its
//! terminator line closes it.

pub mod classification;
pub mod coordinates;
pub mod depthless_rock_sample;
pub mod equipment;
pub mod initial_borehole;
pub mod line;
pub mod method;
pub mod organisations;
pub mod program;
pub mod record;
pub mod standpipe;
pub mod termination;
pub mod work;

use vstd::prelude::*;

use crate::decimal::Decimal;
use crate::infra_file::file_info::{spec_file_info_empty, FileInfo, FileInfoV};
use crate::infra_file::spatial::{spec_spatial_empty, Spatial, SpatialV};
use crate::observation::observation_values::{
    spec_depth_of, spec_soil_of, spec_with_soil, ObservationValuesV,
};
use crate::observation::{Observation, ObservationV};
use crate::parse_result::{ParseResult, ParseResultV};
use classification::{spec_classification_empty, Classification, ClassificationV};
use coordinates::{spec_coordinates_empty, Coordinates, CoordinatesV};
use depthless_rock_sample::{
    spec_depthless_rock_sample_empty, DepthlessRockSample, DepthlessRockSampleV,
};
use equipment::{spec_equipment_empty, Equipment, EquipmentV};
use initial_borehole::{spec_initial_borehole_empty, InitialBorehole, InitialBoreholeV};
use line::{spec_line_empty, Line, LineV};
use method::{spec_method_empty, Method, MethodV};
use organisations::{spec_organisations_empty, Organisations, OrganisationsV};
use program::{spec_program_empty, Program, ProgramV};
use record::{spec_record_empty, Record, RecordV};
use standpipe::{spec_standpipe_empty, Standpipe, StandpipeV};
use termination::{spec_termination_empty, Termination, TerminationV};
use work::{spec_work_empty, Work, WorkV};

verus! {

#[derive(Clone, Debug, PartialEq)]
pub struct Investigation {
    pub file_info: FileInfo,
    pub spatial: Spatial,
    pub organisations: Organisations,
    pub classification: Classification,
    pub work: Work,
    pub record: Record,
    pub method: Method,
    pub equipment: Equipment,
    pub coordinates: Coordinates,
    pub line: Line,
    pub termination: Termination,
    pub program: Program,
    pub depthless_rock_sample: DepthlessRockSample,
    pub initial_borehole: InitialBorehole,
    pub standpipe: Standpipe,
    pub notes: Vec<ParseResult<String>>,
    pub free_text: Vec<ParseResult<String>>,
    pub hidden_text: Vec<ParseResult<String>>,
    pub observations: Vec<Observation>,
    pub total_depth: Option<Decimal>,
    pub soil_layers: Vec<SoilLayer>,
}

/// A contiguous depth interval of one soil type, derived after parsing.
#[derive(Clone, Debug, PartialEq)]
pub struct SoilLayer {
    pub soil_type: String,
    pub thickness: Decimal,
}

#[verifier::ext_equal]
pub struct SoilLayerV {
    pub soil_type: Seq<char>,
    pub thickness: int,
}

impl DeepView for SoilLayer {
    type V = SoilLayerV;

    open spec fn deep_view(&self) -> SoilLayerV {
        SoilLayerV { soil_type: self.soil_type@, thickness: self.thickness.micro as int }
    }
}

#[verifier::ext_equal]
pub struct InvestigationV {
    pub file_info: FileInfoV,
    pub spatial: SpatialV,
    pub organisations: OrganisationsV,
    pub classification: ClassificationV,
    pub work: WorkV,
    pub record: RecordV,
    pub method: MethodV,
    pub equipment: EquipmentV,
    pub coordinates: CoordinatesV,
    pub line: LineV,
    pub termination: TerminationV,
    pub program: ProgramV,
    pub depthless_rock_sample: DepthlessRockSampleV,
    pub initial_borehole: InitialBoreholeV,
    pub standpipe: StandpipeV,
    pub notes: Seq<ParseResultV<Seq<char>>>,
    pub free_text: Seq<ParseResultV<Seq<char>>>,
    pub hidden_text: Seq<ParseResultV<Seq<char>>>,
    pub observations: Seq<ObservationV>,
    pub total_depth: Option<int>,
    pub soil_layers: Seq<SoilLayerV>,
}

impl DeepView for Investigation {
    type V = InvestigationV;

    open spec fn deep_view(&self) -> InvestigationV {
        InvestigationV {
            file_info: self.file_info.deep_view(),
            spatial: self.spatial.deep_view(),
            organisations: self.organisations.deep_view(),
            classification: self.classification.deep_view(),
            work: self.work.deep_view(),
            record: self.record.deep_view(),
            method: self.method.deep_view(),
            equipment: self.equipment.deep_view(),
            coordinates: self.coordinates.deep_view(),
            line: self.line.deep_view(),
            termination: self.termination.deep_view(),
            program: self.program.deep_view(),
            depthless_rock_sample: self.depthless_rock_sample.deep_view(),
            initial_borehole: self.initial_borehole.deep_view(),
            standpipe: self.standpipe.deep_view(),
            notes: self.notes.deep_view(),
            free_text: self.free_text.deep_view(),
            hidden_text: self.hidden_text.deep_view(),
            observations: self.observations.deep_view(),
            total_depth: self.total_depth.deep_view(),
            soil_layers: self.soil_layers.deep_view(),
        }
    }
}

pub open spec fn spec_investigation_empty() -> InvestigationV {
    InvestigationV {
        file_info: spec_file_info_empty(),
        spatial: spec_spatial_empty(),
        organisations: spec_organisations_empty(),
        classification: spec_classification_empty(),
        work: spec_work_empty(),
        record: spec_record_empty(),
        method: spec_method_empty(),
        equipment: spec_equipment_empty(),
        coordinates: spec_coordinates_empty(),
        line: spec_line_empty(),
        termination: spec_termination_empty(),
        program: spec_program_empty(),
        depthless_rock_sample: spec_depthless_rock_sample_empty(),
        initial_borehole: spec_initial_borehole_empty(),
        standpipe: spec_standpipe_empty(),
        notes: Seq::empty(),
        free_text: Seq::empty(),
        hidden_text: Seq::empty(),
        observations: Seq::empty(),
        total_depth: None,
        soil_layers: Seq::empty(),
    }
}

/// One observation passed through the backfill: a parsed soil type becomes
/// the new running soil type; an unparsed soil-type column is overwritten
/// with the running one, if any.
pub open spec fn spec_backfill_step(o: ObservationV, last: Option<Seq<char>>) -> (
    ObservationV,
    Option<Seq<char>>,
) {
    match spec_soil_of(o.values) {
        Some(ParseResultV::Parsed(s)) => (o, Some(s)),
        Some(_) => match last {
            Some(s) => (
                ObservationV { values: spec_with_soil(o.values, ParseResultV::Parsed(s)), ..o },
                last,
            ),
            None => (o, last),
        },
        None => (o, last),
    }
}

/// The backfill pass from a given running soil type, in input order.
pub open spec fn spec_backfill_acc(obs: Seq<ObservationV>, last: Option<Seq<char>>) -> Seq<
    ObservationV,
>
    decreases obs.len(),
{
    if obs.len() == 0 {
        Seq::empty()
    } else {
        let stepped = spec_backfill_step(obs[0], last);
        seq![stepped.0] + spec_backfill_acc(obs.drop_first(), stepped.1)
    }
}

/// The soil-type backfill: scanning in input order, a parsed soil type is
/// carried forward into later observations whose soil-type column did not
/// decode.  Observations without a soil-type column are untouched and do
/// not affect the carried value.
pub open spec fn spec_backfill(obs: Seq<ObservationV>) -> Seq<ObservationV> {
    spec_backfill_acc(obs, None)
}

/// The total depth of an investigation: the depth column of the last
/// observation whose variant carries one.  It is set exactly when that
/// column decoded; observations of depth-less variants after it do not
/// count against it.
pub open spec fn spec_total_depth(obs: Seq<ObservationV>) -> Option<int>
    decreases obs.len(),
{
    if obs.len() == 0 {
        None
    } else {
        match crate::observation::observation_values::spec_final_depth_of(obs.last().values) {
            Some(ParseResultV::Parsed(d)) => Some(d),
            Some(_) => None,
            None => spec_total_depth(obs.drop_last()),
        }
    }
}

/// One observation folded into the soil-layer state `(layers, previous
/// depth)`: an observation with both a decoded depth and a decoded soil
/// type adds a layer of thickness `depth - previous`, merging into the last
/// layer when the soil type repeats; a negative thickness is discarded.
pub open spec fn spec_layer_step(acc: (Seq<SoilLayerV>, int), o: ObservationV) -> (
    Seq<SoilLayerV>,
    int,
) {
    match (spec_depth_of(o.values), spec_soil_of(o.values)) {
        (Some(ParseResultV::Parsed(d)), Some(ParseResultV::Parsed(s))) => {
            if d < acc.1 {
                acc
            } else {
                let t = d - acc.1;
                if acc.0.len() > 0 && acc.0.last().soil_type == s {
                    (
                        acc.0.update(
                            acc.0.len() - 1,
                            SoilLayerV { soil_type: s, thickness: acc.0.last().thickness + t },
                        ),
                        d,
                    )
                } else {
                    (acc.0.push(SoilLayerV { soil_type: s, thickness: t }), d)
                }
            }
        }
        _ => acc,
    }
}

/// The soil-layer state after folding a prefix of the observations.
pub open spec fn spec_layers_state(obs: Seq<ObservationV>) -> (Seq<SoilLayerV>, int)
    decreases obs.len(),
{
    if obs.len() == 0 {
        (Seq::empty(), 0)
    } else {
        spec_layer_step(spec_layers_state(obs.drop_last()), obs.last())
    }
}

/// The depth-ordered soil layers derived from the observations.
pub open spec fn spec_soil_layers(obs: Seq<ObservationV>) -> Seq<SoilLayerV> {
    spec_layers_state(obs).0
}

/// Everything the post-processor derives once an investigation is closed:
/// soil types backfilled, then the total depth and the soil layers read off
/// the backfilled observations.
pub open spec fn spec_finalize(inv: InvestigationV) -> InvestigationV {
    let obs = spec_backfill(inv.observations);
    InvestigationV {
        observations: obs,
        total_depth: spec_total_depth(obs),
        soil_layers: spec_soil_layers(obs),
        ..inv
    }
}

/// Replacing an existing soil-type column leaves a column in place.
proof fn lemma_soil_of_with_soil(v: ObservationValuesV, st: ParseResultV<Seq<char>>)
    requires
        spec_soil_of(v) is Some,
    ensures
        spec_soil_of(spec_with_soil(v, st)) == Some(st),
{
}

/// Running the backfill from the same running soil type twice changes
/// nothing the second time.
proof fn lemma_backfill_acc_idempotent(obs: Seq<ObservationV>, last: Option<Seq<char>>)
    ensures
        spec_backfill_acc(spec_backfill_acc(obs, last), last) == spec_backfill_acc(obs, last),
    decreases obs.len(),
{
    if obs.len() > 0 {
        let stepped = spec_backfill_step(obs[0], last);
        let rest = spec_backfill_acc(obs.drop_first(), stepped.1);
        let whole = seq![stepped.0] + rest;
        assert(whole[0] == stepped.0);
        assert(whole.drop_first() =~= rest);
        if spec_soil_of(obs[0].values) is Some && !(spec_soil_of(obs[0].values) matches Some(
            ParseResultV::Parsed(_),
        )) && last is Some {
            lemma_soil_of_with_soil(obs[0].values, ParseResultV::Parsed(last->Some_0));
        }
        assert(spec_backfill_step(stepped.0, last) == stepped);
        lemma_backfill_acc_idempotent(obs.drop_first(), stepped.1);
        assert(spec_backfill_acc(whole, last) =~= seq![stepped.0] + spec_backfill_acc(
            rest,
            stepped.1,
        ));
    }
}

/// The soil-type backfill is idempotent: running it twice on the same
/// observation list yields what one run yields.
pub proof fn lemma_backfill_idempotent(obs: Seq<ObservationV>)
    ensures
        spec_backfill(spec_backfill(obs)) == spec_backfill(obs),
{
    lemma_backfill_acc_idempotent(obs, None);
}

impl Investigation {
    /// An empty sounding with no observations and nothing derived.
    pub fn new() -> (r: Self)
        ensures
            r.deep_view() == spec_investigation_empty(),
    {
        let r = Investigation {
            file_info: Default::default(),
            spatial: Default::default(),
            organisations: Default::default(),
            classification: Default::default(),
            work: Default::default(),
            record: Default::default(),
            method: Default::default(),
            equipment: Default::default(),
            coordinates: Default::default(),
            line: Default::default(),
            termination: Default::default(),
            program: Default::default(),
            depthless_rock_sample: Default::default(),
            initial_borehole: Default::default(),
            standpipe: Default::default(),
            notes: Vec::new(),
            free_text: Vec::new(),
            hidden_text: Vec::new(),
            observations: Vec::new(),
            total_depth: None,
            soil_layers: Vec::new(),
        };
        proof {
            assert(r.notes.deep_view() =~= Seq::<ParseResultV<Seq<char>>>::empty());
            assert(r.free_text.deep_view() =~= Seq::<ParseResultV<Seq<char>>>::empty());
            assert(r.hidden_text.deep_view() =~= Seq::<ParseResultV<Seq<char>>>::empty());
            assert(r.observations.deep_view() =~= Seq::<ObservationV>::empty());
            assert(r.soil_layers.deep_view() =~= Seq::<SoilLayerV>::empty());
            assert(r.deep_view() =~= spec_investigation_empty());
        }
        r
    }

    /// Backfills omitted soil types: scanning the observations in input
    /// order, the last successfully decoded soil type overwrites any later
    /// soil-type column that did not decode.
    pub fn add_missing_soil_types(&mut self)
        ensures
            final(self).deep_view() == (InvestigationV {
                observations: spec_backfill(old(self).deep_view().observations),
                ..old(self).deep_view()
            }),
    {
        let ghost orig = old(self).deep_view().observations;
        let mut result: Vec<Observation> = Vec::new();
        let mut last: Option<String> = None;
        proof {
            assert(result.deep_view() =~= Seq::<ObservationV>::empty());
            assert(result.deep_view() + spec_backfill_acc(orig, None) =~= spec_backfill_acc(
                orig,
                None,
            ));
        }
        while self.observations.len() > 0
            invariant
                self.deep_view() == (InvestigationV {
                    observations: self.observations.deep_view(),
                    ..old(self).deep_view()
                }),
                spec_backfill(orig) == result.deep_view() + spec_backfill_acc(
                    self.observations.deep_view(),
                    last.deep_view(),
                ),
            decreases self.observations.len(),
        {
            let ghost pre_obs = self.observations.deep_view();
            let ghost pre_result = result.deep_view();
            let ghost pre_last = last.deep_view();
            let mut obs = self.observations.remove(0);
            proof {
                assert(self.observations.deep_view() =~= pre_obs.drop_first());
                assert(obs.deep_view() == pre_obs[0]);
            }
            if obs.values.has_soil_type() {
                let parsed: Option<String> = match obs.values.get_parsed_soil_type() {
                    Some(s) => Some(s.clone()),
                    None => None,
                };
                match parsed {
                    Some(s) => {
                        last = Some(s);
                    }
                    None => {
                        if let Some(s) = &last {
                            let filled = ParseResult::Parsed(s.clone());
                            let values = obs.values;
                            obs.values = values.with_soil_type(filled);
                        }
                    }
                }
            }
            proof {
                let stepped = spec_backfill_step(pre_obs[0], pre_last);
                assert(obs.deep_view() =~= stepped.0);
                assert(last.deep_view() == stepped.1);
            }
            let ghost stepped = spec_backfill_step(pre_obs[0], pre_last);
            result.push(obs);
            proof {
                assert(result.deep_view() =~= pre_result.push(stepped.0));
                assert(pre_result.push(stepped.0) + spec_backfill_acc(
                    pre_obs.drop_first(),
                    stepped.1,
                ) =~= pre_result + (seq![stepped.0] + spec_backfill_acc(
                    pre_obs.drop_first(),
                    stepped.1,
                )));
            }
        }
        proof {
            assert(spec_backfill_acc(self.observations.deep_view(), last.deep_view())
                =~= Seq::<ObservationV>::empty());
            assert(result.deep_view() + Seq::<ObservationV>::empty() =~= result.deep_view());
        }
        self.observations = result;
        proof {
            assert(final(self).deep_view() =~= InvestigationV {
                observations: spec_backfill(orig),
                ..old(self).deep_view()
            });
        }
    }

    /// Records the investigation's total depth: the depth column of the
    /// last observation whose variant carries one, where that column
    /// decoded.
    fn calculate_total_depth(&mut self)
        ensures
            final(self).deep_view() == (InvestigationV {
                total_depth: spec_total_depth(old(self).deep_view().observations),
                ..old(self).deep_view()
            }),
    {
        let ghost obs_dv = self.observations.deep_view();
        let mut result: Option<Decimal> = None;
        let n = self.observations.len();
        let mut i: usize = 0;
        proof {
            assert(obs_dv.take(0) =~= Seq::<ObservationV>::empty());
        }
        while i < n
            invariant
                i <= n,
                n == self.observations.len(),
                obs_dv == self.observations.deep_view(),
                match result {
                    Some(d) => spec_total_depth(obs_dv.take(i as int)) == Some(d.micro as int),
                    None => spec_total_depth(obs_dv.take(i as int)) is None,
                },
            decreases n - i,
        {
            proof {
                assert(obs_dv.take(i as int + 1).drop_last() =~= obs_dv.take(i as int));
                assert(obs_dv.take(i as int + 1).last() == obs_dv[i as int]);
                assert(self.observations.deep_view()[i as int] == self.observations@[
                    i as int].deep_view());
            }
            let obs = &self.observations[i];
            if obs.values.has_final_depth() {
                result = obs.values.get_final_depth();
            }
            i = i + 1;
        }
        proof {
            assert(obs_dv.take(n as int) =~= obs_dv);
        }
        self.total_depth = result;
        proof {
            assert(final(self).deep_view() =~= InvestigationV {
                total_depth: spec_total_depth(old(self).deep_view().observations),
                ..old(self).deep_view()
            });
        }
    }

    /// Derives the soil layers: each observation with a decoded depth and
    /// soil type contributes the interval since the previous such depth,
    /// merged into the preceding layer when the soil type repeats; an
    /// interval of negative thickness is discarded.
    pub fn calculate_soil_layer_thicknesses(&mut self)
        ensures
            final(self).deep_view() == (InvestigationV {
                soil_layers: spec_soil_layers(old(self).deep_view().observations),
                ..old(self).deep_view()
            }),
    {
        let ghost obs_dv = self.observations.deep_view();
        let mut merged: Vec<SoilLayer> = Vec::new();
        let mut prev: i64 = 0;
        let n = self.observations.len();
        let mut i: usize = 0;
        proof {
            assert(merged.deep_view() =~= Seq::<SoilLayerV>::empty());
            assert(obs_dv.take(0) =~= Seq::<ObservationV>::empty());
        }
        while i < n
            invariant
                i <= n,
                n == self.observations.len(),
                obs_dv == self.observations.deep_view(),
                (merged.deep_view(), prev as int) == spec_layers_state(obs_dv.take(i as int)),
                prev >= 0,
                forall|k: int|
                    0 <= k < merged.deep_view().len() ==> 0 <= #[trigger] merged.deep_view()[k].thickness
                        <= prev,
            decreases n - i,
        {
            let ghost pre_state = spec_layers_state(obs_dv.take(i as int));
            proof {
                assert(obs_dv.take(i as int + 1).drop_last() =~= obs_dv.take(i as int));
                assert(obs_dv.take(i as int + 1).last() == obs_dv[i as int]);
                assert(self.observations.deep_view()[i as int] == self.observations@[
                    i as int].deep_view());
            }
            let obs = &self.observations[i];
            let depth = obs.values.get_parsed_depth();
            let soil = obs.values.get_parsed_soil_type();
            match (depth, soil) {
                (Some(d), Some(s)) => {
                    if d.micro >= prev {
                        let t: i64 = d.micro - prev;
                        let ghost pre_merged = merged.deep_view();
                        let mut push_new = true;
                        if let Some(last_layer) = merged.pop() {
                            proof {
                                assert(pre_merged.last() == last_layer.deep_view());
                                assert(merged.deep_view() =~= pre_merged.drop_last());
                            }
                            if last_layer.soil_type.eq(s) {
                                let grown = SoilLayer {
                                    soil_type: last_layer.soil_type,
                                    thickness: Decimal::from_micro(
                                        last_layer.thickness.micro + t,
                                    ),
                                };
                                merged.push(grown);
                                push_new = false;
                                proof {
                                    assert(merged.deep_view() =~= pre_merged.update(
                                        pre_merged.len() - 1,
                                        SoilLayerV {
                                            soil_type: s@,
                                            thickness: pre_merged.last().thickness + (d.micro
                                                - prev),
                                        },
                                    ));
                                }
                            } else {
                                merged.push(last_layer);
                                proof {
                                    assert(merged.deep_view() =~= pre_merged);
                                }
                            }
                        }
                        if push_new {
                            let fresh = SoilLayer {
                                soil_type: s.clone(),
                                thickness: Decimal::from_micro(t),
                            };
                            merged.push(fresh);
                            proof {
                                assert(merged.deep_view() =~= pre_merged.push(
                                    SoilLayerV { soil_type: s@, thickness: d.micro - prev },
                                ));
                            }
                        }
                        prev = d.micro;
                    }
                }
                _ => {}
            }
            proof {
                assert((merged.deep_view(), prev as int) =~= spec_layer_step(
                    pre_state,
                    obs_dv[i as int],
                ));
            }
            i = i + 1;
        }
        proof {
            assert(obs_dv.take(n as int) =~= obs_dv);
        }
        self.soil_layers = merged;
        proof {
            assert(final(self).deep_view() =~= InvestigationV {
                soil_layers: spec_soil_layers(old(self).deep_view().observations),
                ..old(self).deep_view()
            });
        }
    }

    /// Runs the whole post-processing pass of a closed investigation.
    pub fn compute_properties(&mut self)
        ensures
            final(self).deep_view() == spec_finalize(old(self).deep_view()),
    {
        self.add_missing_soil_types();
        self.calculate_total_depth();
        self.calculate_soil_layer_thicknesses();
        proof {
            assert(final(self).deep_view() =~= spec_finalize(old(self).deep_view()));
        }
    }
}

} // verus!
