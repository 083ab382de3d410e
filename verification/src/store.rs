//! Content-addressed bookkeeping of locally stored images.
//!
//! An image arrives under a remote path; its local name is the path's final
//! segment. The store records which names are present, never twice; reading
//! and writing the image bytes themselves is outside work keyed by these
//! names.

use vstd::prelude::*;

verus! {

/// The local name derived from a remote path: everything after the last `/`,
/// or the whole path when it has none.
pub open spec fn last_segment(p: Seq<char>) -> Seq<char>
    decreases p.len(),
{
    if p.len() == 0 {
        Seq::empty()
    } else if p.last() == '/' {
        Seq::empty()
    } else {
        last_segment(p.drop_last()).push(p.last())
    }
}

proof fn lemma_last_segment_suffix(p: Seq<char>, cut: int)
    requires
        0 <= cut <= p.len(),
        cut == 0 || p[cut - 1] == '/',
        forall|k: int| cut <= k < p.len() ==> p[k] != '/',
    ensures
        last_segment(p) =~= p.subrange(cut, p.len() as int),
    decreases p.len(),
{
    if cut == p.len() {
        if p.len() > 0 {
            assert(p.last() == '/');
        }
    } else {
        assert(p.last() != '/');
        let q = p.drop_last();
        lemma_last_segment_suffix(q, cut);
        assert(last_segment(p) == last_segment(q).push(p.last()));
        assert(q.subrange(cut, q.len() as int).push(p.last()) =~= p.subrange(
            cut,
            p.len() as int,
        ));
    }
}

/// Derives the local image name from a remote path: the path's final segment.
pub fn image_name_of(path: &String) -> (r: String)
    ensures
        r@ == last_segment(path@),
{
    let len = path.as_str().unicode_len();
    let mut cut: usize = len;
    loop
        invariant_except_break
            cut <= len,
            len == path@.len(),
            forall|k: int| cut <= k < len ==> path@[k] != '/',
        ensures
            cut <= len,
            len == path@.len(),
            cut == 0 || path@[cut - 1] == '/',
            forall|k: int| cut <= k < len ==> path@[k] != '/',
        decreases cut,
    {
        if cut == 0 {
            break ;
        }
        let c = path.as_str().get_char(cut - 1);
        if c == '/' {
            break ;
        }
        cut = cut - 1;
    }
    proof {
        lemma_last_segment_suffix(path@, cut as int);
    }
    String::from_str(path.as_str().substring_char(cut, len))
}

/// Bookkeeping of the locally stored image names, in arrival order, each at
/// most once.
pub struct ImageStore {
    image_list: Vec<String>,
}

impl View for ImageStore {
    type V = Seq<Seq<char>>;

    closed spec fn view(&self) -> Seq<Seq<char>> {
        self.image_list.deep_view()
    }
}

impl ImageStore {
    /// A well-formed store holds each name at most once.
    pub open spec fn wf(&self) -> bool {
        self@.no_duplicates()
    }

    pub fn new() -> (r: ImageStore)
        ensures
            r@ == Seq::<Seq<char>>::empty(),
            r.wf(),
    {
        let r = ImageStore { image_list: Vec::new() };
        proof {
            assert(r@ =~= Seq::<Seq<char>>::empty());
        }
        r
    }

    /// Whether an image of this local name is already stored.
    pub fn contains_image(&self, name: &String) -> (b: bool)
        ensures
            b == self@.contains(name@),
    {
        let mut i: usize = 0;
        while i < self.image_list.len()
            invariant
                i <= self.image_list@.len(),
                self@ == self.image_list.deep_view(),
                forall|j: int| 0 <= j < i ==> self@[j] != name@,
            decreases self.image_list@.len() - i,
        {
            if self.image_list[i].eq(name) {
                proof {
                    assert(self@[i as int] == name@);
                }
                return true;
            }
            i = i + 1;
        }
        proof {
            if self@.contains(name@) {
                let j = choose|j: int| 0 <= j < self@.len() && self@[j] == name@;
                assert(self@[j] != name@);
            }
        }
        false
    }

    /// Records the image downloaded from `image_path` under its local name,
    /// the path's final segment; a name already present is left alone.
    pub fn store_image(&mut self, image_path: &String)
        requires
            old(self).wf(),
        ensures
            final(self).wf(),
            old(self)@.contains(last_segment(image_path@)) ==> final(self)@ == old(self)@,
            !old(self)@.contains(last_segment(image_path@)) ==> final(self)@ == old(self)@.push(
                last_segment(image_path@),
            ),
            final(self)@.contains(last_segment(image_path@)),
    {
        let name = image_name_of(image_path);
        if !self.contains_image(&name) {
            let ghost pre = self@;
            self.image_list.push(name);
            proof {
                assert(self@ =~= pre.push(last_segment(image_path@)));
                assert(self@.drop_last() =~= pre);
                assert(self@[self@.len() - 1] == last_segment(image_path@));
            }
        }
    }

    /// The stored local names, each exactly once.
    pub fn get_image_list(&self) -> (r: Vec<String>)
        ensures
            r.deep_view() == self@,
    {
        let r = self.image_list.clone();
        proof {
            assert(r.deep_view() =~= self@);
            vstd::std_specs::vec::vec_clone_deep_view_proof(self.image_list, r);
        }
        r
    }
}

} // verus!
