//! The completion router's model catalog: every configured provider is asked
//! for its models concurrently, and the successes are merged into one
//! published catalog. A provider that fails contributes nothing and never
//! aborts the refresh — partial success is the normal case.
//!
//! The network calls happen outside the crate; [`ModelManager::install_models`]
//! receives one listing result per provider and replaces the catalog in a
//! single step.

use vstd::prelude::*;

use crate::error::ApiError;
use crate::text::str_eq;
use crate::models::Clients;

verus! {

/// A model as listed by a provider: a display name and the provider's id.
#[derive(Debug, PartialEq, Eq)]
pub struct Model {
    pub name: String,
    pub id: String,
}

impl Clone for Model {
    fn clone(&self) -> (res: Self)
        ensures
            res == *self,
    {
        Model { name: self.name.clone(), id: self.id.clone() }
    }
}

/// A model of the published catalog, together with the provider family that
/// owns it.
#[derive(Debug)]
pub struct AvailableModel {
    pub model: Model,
    pub client: Clients,
}

impl Clone for AvailableModel {
    fn clone(&self) -> (res: Self)
        ensures
            res == *self,
    {
        AvailableModel { model: self.model.clone(), client: self.client }
    }
}

/// What one provider answered to a listing request: its models, or the
/// error it failed with.
#[derive(Debug)]
pub struct ProviderListing {
    pub client: Clients,
    pub models: Result<Vec<Model>, ApiError>,
}

/// One provider's contribution to the catalog: its models tagged with the
/// provider, or nothing at all when the listing failed.
pub open spec fn models_of(l: ProviderListing) -> Seq<AvailableModel> {
    match l.models {
        Ok(ms) => ms@.map_values(|m: Model| AvailableModel { model: m, client: l.client }),
        Err(_) => Seq::empty(),
    }
}

/// The merged catalog of a round of listings: every success's models in
/// provider order, failures contributing nothing.
pub open spec fn merged(listings: Seq<ProviderListing>) -> Seq<AvailableModel>
    decreases listings.len(),
{
    if listings.len() == 0 {
        Seq::empty()
    } else {
        merged(listings.drop_last()) + models_of(listings.last())
    }
}

/// The published model catalog, replaced wholesale on each refresh.
#[derive(Debug)]
pub struct ModelManager {
    models: Vec<AvailableModel>,
}

impl ModelManager {
    /// The published catalog.
    pub closed spec fn spec_models(&self) -> Seq<AvailableModel> {
        self.models@
    }

    /// An empty catalog.
    pub fn new() -> (r: Self)
        ensures
            r.spec_models() == Seq::<AvailableModel>::empty(),
    {
        ModelManager { models: Vec::new() }
    }

    /// Replace the catalog with the outcome of one refresh round. Failing
    /// providers contribute nothing; the refresh itself never fails.
    pub fn install_models(&mut self, listings: Vec<ProviderListing>)
        ensures
            final(self).spec_models() == merged(listings@),
    {
        let mut models: Vec<AvailableModel> = Vec::new();
        let mut listings = listings;
        let ghost orig = listings@;
        let ghost mut n: int = 0;
        proof {
            assert(models@ =~= merged(orig.take(0int)));
        }
        while listings.len() > 0
            invariant
                0 <= n <= orig.len(),
                listings@ == orig.skip(n),
                models@ == merged(orig.take(n)),
            decreases listings@.len(),
        {
            let l = listings.remove(0);
            proof {
                assert(l == orig[n]);
                assert(orig.skip(n).remove(0) =~= orig.skip(n + 1));
            }
            let ProviderListing { client, models: listed } = l;
            match listed {
                Ok(ms) => {
                    let mut ms = ms;
                    let ghost morig = ms@;
                    let ghost mut k: int = 0;
                    proof {
                        assert(morig.take(0int).map_values(
                            |m: Model| AvailableModel { model: m, client },
                        ) =~= Seq::<AvailableModel>::empty());
                    }
                    while ms.len() > 0
                        invariant
                            0 <= k <= morig.len(),
                            ms@ == morig.skip(k),
                            models@ == merged(orig.take(n)) + morig.take(k).map_values(
                                |m: Model| AvailableModel { model: m, client },
                            ),
                        decreases ms@.len(),
                    {
                        let m = ms.remove(0);
                        proof {
                            assert(m == morig[k]);
                            assert(morig.skip(k).remove(0) =~= morig.skip(k + 1));
                        }
                        models.push(AvailableModel { model: m, client });
                        proof {
                            assert(morig.take(k + 1).map_values(
                                |m: Model| AvailableModel { model: m, client },
                            ) =~= morig.take(k).map_values(
                                |m: Model| AvailableModel { model: m, client },
                            ).push(AvailableModel { model: morig[k], client }));
                            assert(models@ =~= merged(orig.take(n)) + morig.take(k + 1).map_values(
                                |m: Model| AvailableModel { model: m, client },
                            ));
                            k = k + 1;
                        }
                    }
                    proof {
                        assert(morig.take(morig.len() as int) =~= morig);
                        assert(models_of(orig[n]) == morig.map_values(
                            |m: Model| AvailableModel { model: m, client },
                        ));
                    }
                },
                Err(_) => {
                    proof {
                        assert(models_of(orig[n]) =~= Seq::<AvailableModel>::empty());
                    }
                },
            }
            proof {
                assert(orig.take(n + 1).drop_last() =~= orig.take(n));
                assert(orig.take(n + 1).last() == orig[n]);
                assert(models@ =~= merged(orig.take(n + 1)));
                n = n + 1;
            }
        }
        proof {
            assert(orig.take(orig.len() as int) =~= orig);
        }
        self.models = models;
    }

    /// The published catalog, as a fresh vector.
    pub fn get_models(&self) -> (r: Vec<AvailableModel>)
        ensures
            r@ == self.spec_models(),
    {
        let mut r: Vec<AvailableModel> = Vec::new();
        let mut i: usize = 0;
        while i < self.models.len()
            invariant
                i <= self.models@.len(),
                r@ == self.models@.take(i as int),
            decreases self.models@.len() - i,
        {
            r.push(self.models[i].clone());
            proof {
                assert(self.models@.take(i + 1) =~= self.models@.take(i as int).push(
                    self.models@[i as int],
                ));
            }
            i += 1;
        }
        proof {
            assert(self.models@.take(self.models@.len() as int) =~= self.models@);
        }
        r
    }

    /// The first catalog entry whose display name matches, if any.
    pub fn find_model(&self, name: &str) -> (r: Option<AvailableModel>)
        ensures
            match r {
                Some(m) => exists|k: int|
                    0 <= k < self.spec_models().len() && m == self.spec_models()[k]
                        && #[trigger] self.spec_models()[k].model.name@ == name@ && (forall|j: int|
                        0 <= j < k ==> self.spec_models()[j].model.name@ != name@),
                None => forall|k: int|
                    0 <= k < self.spec_models().len()
                        ==> #[trigger] self.spec_models()[k].model.name@ != name@,
            },
    {
        let mut i: usize = 0;
        while i < self.models.len()
            invariant
                i <= self.models@.len(),
                forall|j: int| 0 <= j < i ==> #[trigger] self.models@[j].model.name@ != name@,
            decreases self.models@.len() - i,
        {
            if str_eq(self.models[i].model.name.as_str(), name) {
                return Some(self.models[i].clone());
            }
            i += 1;
        }
        None
    }
}

impl Default for ModelManager {
    /// The default manager starts with an empty catalog.
    fn default() -> (r: Self)
        ensures
            r.spec_models() == Seq::<AvailableModel>::empty(),
    {
        ModelManager::new()
    }
}

} // verus!
