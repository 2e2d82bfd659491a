//! A flat collection of investigations merged from one or more parsed
//! files, each tagged with its originating file's provenance and spatial
//! reference before the merge.

use vstd::prelude::*;

use crate::infra_file::{InfraFile, InfraFileV};
use crate::investigation::{Investigation, InvestigationV};
use crate::investigation_aggregator::{HasInvestigations, InvestigationAggregator};

verus! {

#[derive(Clone, Debug, PartialEq)]
pub struct InvestigationCollection {
    pub investigations: Vec<Investigation>,
}

impl DeepView for InvestigationCollection {
    type V = Seq<InvestigationV>;

    open spec fn deep_view(&self) -> Seq<InvestigationV> {
        self.investigations.deep_view()
    }
}

/// The investigations of one parsed file, each tagged with that file's
/// provenance and spatial reference.
pub open spec fn spec_collection_of(f: InfraFileV) -> Seq<InvestigationV> {
    f.investigations.map_values(
        |iv: InvestigationV|
            InvestigationV { file_info: f.file_info, spatial: f.spatial, ..iv },
    )
}

impl InvestigationCollection {
    /// An empty collection.
    pub fn new() -> (r: Self)
        ensures
            r.deep_view() == Seq::<InvestigationV>::empty(),
    {
        let r = InvestigationCollection { investigations: Vec::new() };
        proof {
            assert(r.deep_view() =~= Seq::<InvestigationV>::empty());
        }
        r
    }

    /// The collection holding one parsed file's investigations, tagged with
    /// that file's provenance and spatial reference.
    pub fn from_infra_file(infra: InfraFile) -> (r: Self)
        ensures
            r.deep_view() == spec_collection_of(infra.deep_view()),
    {
        let ghost orig = infra.deep_view();
        let ghost fin = spec_collection_of(orig);
        let mut infra = infra;
        let mut result: Vec<Investigation> = Vec::new();
        proof {
            assert(result.deep_view() =~= fin.take(0));
            assert(infra.investigations.deep_view() =~= orig.investigations.skip(0));
        }
        while infra.investigations.len() > 0
            invariant
                fin == spec_collection_of(orig),
                infra.file_info.deep_view() == orig.file_info,
                infra.spatial.deep_view() == orig.spatial,
                result@.len() <= orig.investigations.len(),
                infra.investigations.deep_view() == orig.investigations.skip(result@.len() as int),
                result.deep_view() == fin.take(result@.len() as int),
            decreases infra.investigations.len(),
        {
            let ghost k = result@.len() as int;
            let ghost pre_vec = infra.investigations@;
            let ghost pre_dv = infra.investigations.deep_view();
            proof {
                assert(pre_dv.len() == pre_vec.len());
                assert(orig.investigations.skip(k).len() == orig.investigations.len() - k);
                assert(0 <= k < orig.investigations.len());
                assert(fin.len() == orig.investigations.len());
                assert(orig.investigations.skip(k)[0] == orig.investigations[k]);
            }
            let mut investigation = infra.investigations.remove(0);
            proof {
                assert(investigation.deep_view() == pre_dv[0]);
                assert(infra.investigations@ =~= pre_vec.drop_first());
                assert(infra.investigations.deep_view() =~= pre_dv.drop_first());
                assert(pre_dv.drop_first() =~= orig.investigations.skip(k + 1));
            }
            investigation.file_info = infra.file_info.duplicate();
            investigation.spatial = infra.spatial.duplicate();
            let ghost pre = result.deep_view();
            result.push(investigation);
            proof {
                assert(fin[k] == (InvestigationV {
                    file_info: orig.file_info,
                    spatial: orig.spatial,
                    ..orig.investigations[k]
                }));
                assert(investigation.deep_view() =~~= fin[k]);
                assert(result.deep_view() =~= pre.push(investigation.deep_view()));
                assert(result.deep_view() =~~= fin.take(k + 1));
            }
        }
        proof {
            assert(result.deep_view() =~= fin);
        }
        let r = InvestigationCollection { investigations: result };
        r
    }

    /// Appends one parsed file's investigations, tagged as
    /// [`InvestigationCollection::from_infra_file`] tags them; files merge
    /// in the order they are absorbed.
    pub fn absorb(&mut self, infra: InfraFile)
        ensures
            final(self).deep_view() == old(self).deep_view() + spec_collection_of(
                infra.deep_view(),
            ),
    {
        let mut incoming = Self::from_infra_file(infra);
        let ghost pre = self.investigations.deep_view();
        let ghost inc = incoming.investigations.deep_view();
        self.investigations.append(&mut incoming.investigations);
        proof {
            assert(self.investigations.deep_view() =~= pre + inc);
        }
    }
}

impl HasInvestigations for InvestigationCollection {
    open spec fn spec_investigations(&self) -> Seq<InvestigationV> {
        self.investigations.deep_view()
    }

    fn investigations(&self) -> (r: &Vec<Investigation>)
        ensures
            r.deep_view() == self.spec_investigations(),
    {
        &self.investigations
    }
}

impl InvestigationAggregator for InvestigationCollection {

}

} // verus!
