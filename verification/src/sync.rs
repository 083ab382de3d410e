//! The image synchronization engine's decision core.
//!
//! A background loop periodically polls the remote capture device. Each tick
//! it (1) observes the device's progress and decides whether the externally
//! visible status changed, (2) compares the remote "ready" identifiers
//! against the locally stored names and plans a download for each identifier
//! whose derived name is absent, and (3) records each completed download.
//! The polling, the downloads and the observer push are outside work; this
//! module makes every decision between them, so a failed request simply
//! leaves the state untouched until the next tick.

use vstd::prelude::*;
use vstd::seq_lib::*;
use crate::com::ServerStatus;
use crate::model::ImageAppStatus;
use crate::store::{ImageStore, image_name_of, last_segment};

verus! {

/// The downloads a poll plans: the ready identifiers whose derived local
/// name is not yet stored, in the order the device listed them.
pub open spec fn spec_new_image_paths(
    available: Seq<Seq<char>>,
    stored: Seq<Seq<char>>,
) -> Seq<Seq<char>> {
    available.filter(|p: Seq<char>| !stored.contains(last_segment(p)))
}

/// The status change a progress observation causes, if any: the observed
/// position, or completion once the observed position equals the target;
/// `None` when the externally visible status would not change.
pub open spec fn spec_new_status(
    current: ImageAppStatus,
    target: ServerStatus,
    observed: ServerStatus,
) -> Option<ImageAppStatus> {
    let next = if observed == target {
        ImageAppStatus::Finished
    } else {
        ImageAppStatus::TakingImages(observed)
    };
    if current == next {
        None
    } else {
        Some(next)
    }
}

/// State of one capture run's synchronization: the device's address, the
/// plan-derived completion target, the last externally visible status, the
/// cancellation flag, and the bookkeeping of stored images.
pub struct ImageDownloader {
    pub url: String,
    pub target_server_status: ServerStatus,
    pub app_image_status: ImageAppStatus,
    pub reset: bool,
    pub image_store: ImageStore,
}

impl ImageDownloader {
    pub open spec fn wf(&self) -> bool {
        self.image_store.wf()
    }

    pub fn new(url: String, target_server_status: ServerStatus) -> (r: ImageDownloader)
        ensures
            r.url@ == url@,
            r.target_server_status == target_server_status,
            r.app_image_status == ImageAppStatus::Start,
            r.reset == false,
            r.image_store@ == Seq::<Seq<char>>::empty(),
            r.wf(),
    {
        ImageDownloader {
            url,
            target_server_status,
            app_image_status: ImageAppStatus::Start,
            reset: false,
            image_store: ImageStore::new(),
        }
    }

    pub fn get_status(&self) -> (r: ImageAppStatus)
        ensures
            r == self.app_image_status,
    {
        self.app_image_status
    }

    /// Decides what a progress observation means, without applying it.
    pub fn get_new_status(&self, server_status: ServerStatus) -> (r: Option<ImageAppStatus>)
        ensures
            r == spec_new_status(self.app_image_status, self.target_server_status, server_status),
    {
        let new_server_status = if server_status == self.target_server_status {
            ImageAppStatus::Finished
        } else {
            ImageAppStatus::TakingImages(server_status)
        };
        if self.app_image_status == new_server_status {
            None
        } else {
            Some(new_server_status)
        }
    }

    /// Applies a progress observation: updates the externally visible status
    /// and reports whether it changed, so the caller knows to notify the
    /// observer and reconcile the ready set.
    pub fn observe_status(&mut self, server_status: ServerStatus) -> (changed: bool)
        ensures
            changed == spec_new_status(
                old(self).app_image_status,
                old(self).target_server_status,
                server_status,
            ) is Some,
            final(self).app_image_status == (match spec_new_status(
                old(self).app_image_status,
                old(self).target_server_status,
                server_status,
            ) {
                Some(next) => next,
                None => old(self).app_image_status,
            }),
            final(self).url == old(self).url,
            final(self).target_server_status == old(self).target_server_status,
            final(self).reset == old(self).reset,
            final(self).image_store == old(self).image_store,
    {
        match self.get_new_status(server_status) {
            Some(next) => {
                self.app_image_status = next;
                true
            },
            None => false,
        }
    }

    /// Plans the downloads a poll must issue: every ready identifier whose
    /// derived local name is absent from the store.
    pub fn get_new_image_paths(&self, available_images: &Vec<String>) -> (r: Vec<String>)
        ensures
            r.deep_view() == spec_new_image_paths(
                available_images.deep_view(),
                self.image_store@,
            ),
    {
        let ghost avail = available_images.deep_view();
        let ghost stored = self.image_store@;
        let ghost pred = |p: Seq<char>| !stored.contains(last_segment(p));
        let mut r: Vec<String> = Vec::new();
        proof {
            assert(avail.subrange(0, 0).filter(pred) =~= Seq::<Seq<char>>::empty());
            assert(r.deep_view() =~= Seq::<Seq<char>>::empty());
        }
        let mut i: usize = 0;
        while i < available_images.len()
            invariant
                i <= available_images@.len(),
                avail == available_images.deep_view(),
                stored == self.image_store@,
                pred == (|p: Seq<char>| !stored.contains(last_segment(p))),
                r.deep_view() == avail.subrange(0, i as int).filter(pred),
            decreases available_images@.len() - i,
        {
            let path = &available_images[i];
            let ghost prefix = avail.subrange(0, i as int);
            let ghost r_pre = r.deep_view();
            let name = image_name_of(path);
            if !self.image_store.contains_image(&name) {
                r.push(path.clone());
                proof {
                    assert(r.deep_view() =~= r_pre.push(path@));
                }
            }
            proof {
                assert(avail[i as int] == path@);
                assert(avail.subrange(0, i + 1int) =~= prefix.push(avail[i as int]));
                prefix.lemma_filter_push(avail[i as int], pred);
            }
            i = i + 1;
        }
        proof {
            assert(avail.subrange(0, avail.len() as int) =~= avail);
        }
        r
    }

    /// Records one completed download under its derived local name.
    pub fn store_image(&mut self, image_path: &String)
        requires
            old(self).wf(),
        ensures
            final(self).wf(),
            old(self).image_store@.contains(last_segment(image_path@))
                ==> final(self).image_store@ == old(self).image_store@,
            !old(self).image_store@.contains(last_segment(image_path@))
                ==> final(self).image_store@ == old(self).image_store@.push(
                last_segment(image_path@),
            ),
            final(self).image_store@.contains(last_segment(image_path@)),
            final(self).url == old(self).url,
            final(self).target_server_status == old(self).target_server_status,
            final(self).app_image_status == old(self).app_image_status,
            final(self).reset == old(self).reset,
    {
        self.image_store.store_image(image_path);
    }

    pub fn get_image_list(&self) -> (r: Vec<String>)
        ensures
            r.deep_view() == self.image_store@,
    {
        self.image_store.get_image_list()
    }

    pub fn contains_image(&self, name: &String) -> (b: bool)
        ensures
            b == self.image_store@.contains(name@),
    {
        self.image_store.contains_image(name)
    }

    /// Raises the cancellation flag; the loop stops before its next tick.
    pub fn reset(&mut self)
        ensures
            final(self).reset == true,
            final(self).url == old(self).url,
            final(self).target_server_status == old(self).target_server_status,
            final(self).app_image_status == old(self).app_image_status,
            final(self).image_store == old(self).image_store,
    {
        self.reset = true;
    }

    /// The loop runs until the observed progress equals the completion
    /// target or cancellation is signaled.
    pub fn should_continue(&self) -> (b: bool)
        ensures
            b == (!(self.app_image_status is Finished) && !self.reset),
    {
        !matches!(self.app_image_status, ImageAppStatus::Finished) && !self.reset
    }
}

proof fn lemma_filter_all_false<A>(s: Seq<A>, pred: spec_fn(A) -> bool)
    requires
        forall|i: int| 0 <= i < s.len() ==> !pred(s[i]),
    ensures
        s.filter(pred) =~= Seq::<A>::empty(),
    decreases s.len(),
{
    reveal(Seq::filter);
    if s.len() > 0 {
        lemma_filter_all_false(s.drop_last(), pred);
    }
}

/// Absence-based diffing is self-healing: an identifier whose name is
/// already stored is never planned again, and one whose name is still absent
/// — because its download failed or never ran — is planned again on every
/// poll that still lists it.
pub proof fn lemma_diff_self_healing(
    available: Seq<Seq<char>>,
    stored: Seq<Seq<char>>,
    p: Seq<char>,
)
    ensures
        stored.contains(last_segment(p)) ==> !spec_new_image_paths(available, stored).contains(p),
        available.contains(p) && !stored.contains(last_segment(p)) ==> spec_new_image_paths(
            available,
            stored,
        ).contains(p),
{
    let pred = |q: Seq<char>| !stored.contains(last_segment(q));
    let planned = available.filter(pred);
    if stored.contains(last_segment(p)) && planned.contains(p) {
        let i = choose|i: int| 0 <= i < planned.len() && planned[i] == p;
        available.lemma_filter_pred(pred, i);
    }
    if available.contains(p) && !stored.contains(last_segment(p)) {
        let i = choose|i: int| 0 <= i < available.len() && available[i] == p;
        available.lemma_filter_contains(pred, i);
    }
}

/// Diffing is idempotent: a poll is a pure function of the observed ready
/// set and the stored names, so once every download planned by one poll has
/// completed into the store, a second poll of the same ready set plans no
/// download at all.
pub proof fn lemma_diff_idempotent(
    available: Seq<Seq<char>>,
    stored: Seq<Seq<char>>,
    stored_after: Seq<Seq<char>>,
)
    requires
        forall|q: Seq<char>|
            spec_new_image_paths(available, stored).contains(q) ==> stored_after.contains(
                last_segment(q),
            ),
        forall|n: Seq<char>| stored.contains(n) ==> stored_after.contains(n),
    ensures
        spec_new_image_paths(available, stored_after) =~= Seq::<Seq<char>>::empty(),
{
    let pred = |q: Seq<char>| !stored.contains(last_segment(q));
    let pred_after = |q: Seq<char>| !stored_after.contains(last_segment(q));
    assert forall|i: int| 0 <= i < available.len() implies !pred_after(available[i]) by {
        let p = available[i];
        if !stored.contains(last_segment(p)) {
            available.lemma_filter_contains(pred, i);
            assert(spec_new_image_paths(available, stored).contains(p));
        }
    };
    lemma_filter_all_false(available, pred_after);
}

} // verus!
