use vstd::prelude::*;

use crate::color::{white, Rgb};
use crate::texture::{texel_of, CpuTexture};

verus! {

/// Relies on `PartialEq` for `str`: two strings are equal exactly when they
/// hold the same characters.
#[verifier::external_body]
fn same_path(a: &str, b: &str) -> (r: bool)
    ensures
        r == (a@ == b@),
{
    a == b
}

/// The textures of a list of (path, texture) entries, keyed by path; a later
/// entry wins over an earlier one with the same path.
pub open spec fn textures_map(entries: Seq<(String, CpuTexture)>) -> Map<Seq<char>, CpuTexture>
    decreases entries.len(),
{
    if entries.len() == 0 {
        Map::empty()
    } else {
        textures_map(entries.drop_last()).insert(entries.last().0@, entries.last().1)
    }
}

/// No two entries share a path.
pub open spec fn paths_distinct(entries: Seq<(String, CpuTexture)>) -> bool {
    forall|i: int, j: int|
        0 <= i < j < entries.len() ==> #[trigger] entries[i].0@ != #[trigger] entries[j].0@
}

proof fn lemma_textures_map_keys(entries: Seq<(String, CpuTexture)>, path: Seq<char>)
    ensures
        textures_map(entries).contains_key(path) <==> exists|i: int|
            0 <= i < entries.len() && #[trigger] entries[i].0@ == path,
    decreases entries.len(),
{
    if entries.len() > 0 {
        let front = entries.drop_last();
        lemma_textures_map_keys(front, path);
        if textures_map(entries).contains_key(path) && entries.last().0@ != path {
            let i = choose|i: int| 0 <= i < front.len() && #[trigger] front[i].0@ == path;
            assert(entries[i].0@ == path);
        }
        if exists|i: int| 0 <= i < entries.len() && #[trigger] entries[i].0@ == path {
            let i = choose|i: int| 0 <= i < entries.len() && #[trigger] entries[i].0@ == path;
            if i < front.len() {
                assert(front[i].0@ == path);
            }
        }
    }
}

proof fn lemma_textures_map_entry(entries: Seq<(String, CpuTexture)>, i: int)
    requires
        paths_distinct(entries),
        0 <= i < entries.len(),
    ensures
        textures_map(entries).contains_key(entries[i].0@),
        textures_map(entries)[entries[i].0@] == entries[i].1,
    decreases entries.len(),
{
    if i < entries.len() - 1 {
        let front = entries.drop_last();
        assert(front[i] == entries[i]);
        assert forall|a: int, b: int| 0 <= a < b < front.len() implies
            #[trigger] front[a].0@ != #[trigger] front[b].0@ by {
            assert(front[a] == entries[a] && front[b] == entries[b]);
        }
        lemma_textures_map_entry(front, i);
        assert(entries[i].0@ != entries[entries.len() - 1].0@);
    }
}

/// The textures that shading samples, each under the path it was loaded from.
pub struct TextureManager {
    cpu_textures: Vec<(String, CpuTexture)>,
}

impl View for TextureManager {
    type V = Map<Seq<char>, CpuTexture>;

    closed spec fn view(&self) -> Map<Seq<char>, CpuTexture> {
        textures_map(self.cpu_textures@)
    }
}

impl TextureManager {
    /// Each path is held at most once.
    pub closed spec fn wf(&self) -> bool {
        paths_distinct(self.cpu_textures@)
    }

    /// A manager that holds no texture.
    pub fn new() -> (m: TextureManager)
        ensures
            m.wf(),
            m@ == Map::<Seq<char>, CpuTexture>::empty(),
    {
        TextureManager { cpu_textures: Vec::new() }
    }

    /// Where the texture loaded from `path` sits in the list, if it was loaded.
    fn position(&self, path: &str) -> (r: Option<usize>)
        requires
            self.wf(),
        ensures
            r.is_none() <==> !self@.contains_key(path@),
            r matches Some(i) ==> i < self.cpu_textures@.len() && self.cpu_textures@[i as int].0@
                == path@ && self@[path@] == self.cpu_textures@[i as int].1,
    {
        proof {
            lemma_textures_map_keys(self.cpu_textures@, path@);
        }
        let mut i: usize = 0;
        while i < self.cpu_textures.len()
            invariant
                self.wf(),
                i <= self.cpu_textures@.len(),
                forall|j: int| 0 <= j < i ==> #[trigger] self.cpu_textures@[j].0@ != path@,
            decreases self.cpu_textures@.len() - i,
        {
            if same_path(self.cpu_textures[i].0.as_str(), path) {
                proof {
                    lemma_textures_map_entry(self.cpu_textures@, i as int);
                }
                return Some(i);
            }
            i = i + 1;
        }
        None
    }

    /// Whether a texture was loaded from `path`.
    pub fn contains(&self, path: &str) -> (r: bool)
        requires
            self.wf(),
        ensures
            r == self@.contains_key(path@),
    {
        self.position(path).is_some()
    }

    /// Keeps `texture` under `path`; a path that is already held keeps its
    /// first texture.
    pub fn insert_texture(&mut self, path: &str, texture: CpuTexture)
        requires
            old(self).wf(),
        ensures
            final(self).wf(),
            old(self)@.contains_key(path@) ==> final(self)@ == old(self)@,
            !old(self)@.contains_key(path@) ==> final(self)@ == old(self)@.insert(path@, texture),
    {
        if self.position(path).is_none() {
            let ghost before = self.cpu_textures@;
            proof {
                lemma_textures_map_keys(before, path@);
            }
            self.cpu_textures.push((path.to_owned(), texture));
            proof {
                let after = self.cpu_textures@;
                assert(after.drop_last() == before);
                assert forall|a: int, b: int| 0 <= a < b < after.len() implies
                    #[trigger] after[a].0@ != #[trigger] after[b].0@ by {
                    if b == after.len() - 1 {
                        assert(after[a] == before[a]);
                    } else {
                        assert(after[a] == before[a] && after[b] == before[b]);
                    }
                }
            }
        }
    }

    /// The texture loaded from `path`, if any.
    pub fn cpu_texture(&self, path: &str) -> (r: Option<&CpuTexture>)
        requires
            self.wf(),
        ensures
            r.is_none() <==> !self@.contains_key(path@),
            r matches Some(t) ==> *t == self@[path@],
    {
        match self.position(path) {
            Some(i) => Some(&self.cpu_textures[i].1),
            None => None,
        }
    }

    /// The pixel at column `tx`, row `ty` of the texture loaded from `path`;
    /// white where no texture was loaded from `path` or the position lies
    /// outside its pixels.
    pub fn sample_texel(&self, path: &str, tx: i32, ty: i32) -> (c: Rgb)
        requires
            self.wf(),
        ensures
            c == (if self@.contains_key(path@) {
                texel_of(self@[path@].width as int, self@[path@].pixels@, tx as int, ty as int)
            } else {
                white()
            }),
    {
        match self.cpu_texture(path) {
            Some(t) => t.texel(tx, ty),
            None => Rgb::white(),
        }
    }
}

impl Default for TextureManager {
    fn default() -> (m: TextureManager)
        ensures
            m.wf(),
            m@ == Map::<Seq<char>, CpuTexture>::empty(),
    {
        TextureManager::new()
    }
}

} // verus!
