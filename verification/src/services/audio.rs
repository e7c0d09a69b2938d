//! The audio widget: which PipeWire sink is the default one, followed across the
//! registry's announcements, the metadata's default-sink changes and each sink's
//! property updates.
use vstd::prelude::*;
use crate::launcher::types::opt_view;
use crate::text::str_eq;

verus! {

/// The icon the audio widget shows.
#[derive(Debug, Clone, Copy, PartialEq, Eq, Structural)]
pub enum AudioIcon {
    Muted,
    Low,
    Medium,
    High,
}

/// The sinks PipeWire announced, and which of them is the default one.
#[derive(Debug)]
pub struct SinkTracker {
    default_sink_name: Option<String>,
    default_node_id: Option<u32>,
    nodes: Vec<(u32, String)>,
}

/// The `(id, name)` of each tracked sink.
pub open spec fn node_views(s: Seq<(u32, String)>) -> Seq<(u32, Seq<char>)> {
    s.map_values(|e: (u32, String)| (e.0, e.1@))
}

/// The index of the first sink with id `id`.
pub open spec fn first_node_with_id(s: Seq<(u32, Seq<char>)>, id: u32) -> Option<int>
    decreases s.len(),
{
    if s.len() == 0 {
        None
    } else {
        match first_node_with_id(s.drop_last(), id) {
            Some(i) => Some(i),
            None => if s.last().0 == id {
                Some(s.len() - 1)
            } else {
                None
            },
        }
    }
}

/// The index of the first sink named `name`.
pub open spec fn first_node_named(s: Seq<(u32, Seq<char>)>, name: Seq<char>) -> Option<int>
    decreases s.len(),
{
    if s.len() == 0 {
        None
    } else {
        match first_node_named(s.drop_last(), name) {
            Some(i) => Some(i),
            None => if s.last().1 == name {
                Some(s.len() - 1)
            } else {
                None
            },
        }
    }
}

proof fn lemma_first_id_prefix(s: Seq<(u32, Seq<char>)>, id: u32, k: int)
    requires
        0 <= k <= s.len(),
        first_node_with_id(s.take(k), id) is Some,
    ensures
        first_node_with_id(s, id) == first_node_with_id(s.take(k), id),
    decreases s.len(),
{
    if k < s.len() {
        assert(s.drop_last().take(k) =~= s.take(k));
        lemma_first_id_prefix(s.drop_last(), id, k);
    } else {
        assert(s.take(k) =~= s);
    }
}

proof fn lemma_first_name_prefix(s: Seq<(u32, Seq<char>)>, name: Seq<char>, k: int)
    requires
        0 <= k <= s.len(),
        first_node_named(s.take(k), name) is Some,
    ensures
        first_node_named(s, name) == first_node_named(s.take(k), name),
    decreases s.len(),
{
    if k < s.len() {
        assert(s.drop_last().take(k) =~= s.take(k));
        lemma_first_name_prefix(s.drop_last(), name, k);
    } else {
        assert(s.take(k) =~= s);
    }
}

proof fn lemma_first_id_bounds(s: Seq<(u32, Seq<char>)>, id: u32)
    ensures
        first_node_with_id(s, id) matches Some(i) ==> 0 <= i < s.len() && s[i].0 == id,
    decreases s.len(),
{
    if s.len() > 0 {
        lemma_first_id_bounds(s.drop_last(), id);
    }
}

proof fn lemma_first_name_bounds(s: Seq<(u32, Seq<char>)>, name: Seq<char>)
    ensures
        first_node_named(s, name) matches Some(i) ==> 0 <= i < s.len() && s[i].1 == name,
    decreases s.len(),
{
    if s.len() > 0 {
        lemma_first_name_bounds(s.drop_last(), name);
    }
}

impl SinkTracker {
    /// The tracked sinks, `(id, name)`, in the order they were announced.
    pub closed spec fn spec_nodes(&self) -> Seq<(u32, Seq<char>)> {
        node_views(self.nodes@)
    }

    /// The name of the default sink, as the metadata last gave it.
    pub closed spec fn spec_default_name(&self) -> Option<Seq<char>> {
        opt_view(self.default_sink_name)
    }

    /// The id of the sink taken as the default one.
    pub closed spec fn spec_default_id(&self) -> Option<u32> {
        self.default_node_id
    }

    /// Nothing tracked, no default.
    pub fn new() -> (r: SinkTracker)
        ensures
            r.spec_nodes() == Seq::<(u32, Seq<char>)>::empty(),
            r.spec_default_name() is None,
            r.spec_default_id() is None,
    {
        let r = SinkTracker { default_sink_name: None, default_node_id: None, nodes: Vec::new() };
        proof {
            assert(r.spec_nodes() =~= Seq::<(u32, Seq<char>)>::empty());
        }
        r
    }

    fn find_id(&self, id: u32) -> (r: Option<usize>)
        ensures
            match r {
                Some(i) => first_node_with_id(self.spec_nodes(), id) == Some(i as int) && i
                    < self.nodes.len(),
                None => first_node_with_id(self.spec_nodes(), id) is None,
            },
    {
        let ghost s = self.spec_nodes();
        let mut i: usize = 0;
        while i < self.nodes.len()
            invariant
                i <= self.nodes.len(),
                s == node_views(self.nodes@),
                first_node_with_id(s.take(i as int), id) is None,
            decreases self.nodes.len() - i,
        {
            proof {
                assert(s.take(i + 1).drop_last() =~= s.take(i as int));
            }
            if self.nodes[i].0 == id {
                proof {
                    lemma_first_id_prefix(s, id, i + 1);
                }
                return Some(i);
            }
            i += 1;
        }
        proof {
            assert(s.take(self.nodes.len() as int) =~= s);
        }
        None
    }

    fn find_name(&self, name: &str) -> (r: Option<usize>)
        ensures
            match r {
                Some(i) => first_node_named(self.spec_nodes(), name@) == Some(i as int) && i
                    < self.nodes.len(),
                None => first_node_named(self.spec_nodes(), name@) is None,
            },
    {
        let ghost s = self.spec_nodes();
        let mut i: usize = 0;
        while i < self.nodes.len()
            invariant
                i <= self.nodes.len(),
                s == node_views(self.nodes@),
                first_node_named(s.take(i as int), name@) is None,
            decreases self.nodes.len() - i,
        {
            proof {
                assert(s.take(i + 1).drop_last() =~= s.take(i as int));
            }
            if str_eq(&self.nodes[i].1, name) {
                proof {
                    lemma_first_name_prefix(s, name@, i + 1);
                }
                return Some(i);
            }
            i += 1;
        }
        proof {
            assert(s.take(self.nodes.len() as int) =~= s);
        }
        None
    }

    /// The metadata names the default sink (or no longer names one): the default becomes
    /// the first tracked sink of that name, if any; the snapshot is published only then.
    pub fn on_default_sink(&mut self, name: Option<String>) -> (publish: bool)
        ensures
            final(self).spec_nodes() == old(self).spec_nodes(),
            final(self).spec_default_name() == opt_view(name),
            final(self).spec_default_id() == match opt_view(name) {
                Some(n) => match first_node_named(old(self).spec_nodes(), n) {
                    Some(i) => Some(old(self).spec_nodes()[i].0),
                    None => None,
                },
                None => None,
            },
            publish == (final(self).spec_default_id() is Some),
    {
        proof {
            match opt_view(name) {
                Some(n) => lemma_first_name_bounds(self.spec_nodes(), n),
                None => {},
            }
        }
        let new_id = match &name {
            Some(n) => match self.find_name(n) {
                Some(i) => Some(self.nodes[i].0),
                None => None,
            },
            None => None,
        };
        self.default_sink_name = name;
        self.default_node_id = new_id;
        new_id.is_some()
    }

    /// A sink was announced: it becomes the default when the metadata already named it,
    /// and it is tracked (replacing a sink of the same id).
    pub fn on_sink_node(&mut self, id: u32, name: String)
        ensures
            final(self).spec_default_name() == old(self).spec_default_name(),
            final(self).spec_default_id() == if old(self).spec_default_name() == Some(name@) {
                Some(id)
            } else {
                old(self).spec_default_id()
            },
            final(self).spec_nodes() == match first_node_with_id(old(self).spec_nodes(), id) {
                Some(i) => old(self).spec_nodes().update(i, (id, name@)),
                None => old(self).spec_nodes().push((id, name@)),
            },
    {
        let ghost s = self.spec_nodes();
        let claims = match &self.default_sink_name {
            Some(d) => str_eq(d, &name),
            None => false,
        };
        if claims {
            self.default_node_id = Some(id);
        }
        let ghost nv = name@;
        match self.find_id(id) {
            Some(i) => {
                self.nodes.set(i, (id, name));
                proof {
                    assert(self.spec_nodes() =~= s.update(i as int, (id, nv)));
                }
            },
            None => {
                self.nodes.push((id, name));
                proof {
                    assert(self.spec_nodes() =~= s.push((id, nv)));
                }
            },
        }
    }

    /// Sink `id` (named `name`) reported its properties: it is the default when its name is
    /// the metadata's default sink or it already is the default; then it is taken as the
    /// default and the snapshot is published.
    pub fn on_props(&mut self, id: u32, name: &str) -> (publish: bool)
        ensures
            final(self).spec_nodes() == old(self).spec_nodes(),
            final(self).spec_default_name() == old(self).spec_default_name(),
            publish == (old(self).spec_default_name() == Some(name@) || old(self).spec_default_id()
                == Some(id)),
            final(self).spec_default_id() == if publish {
                Some(id)
            } else {
                old(self).spec_default_id()
            },
    {
        let by_name = match &self.default_sink_name {
            Some(d) => str_eq(d, name),
            None => false,
        };
        let is_default = by_name || self.default_node_id == Some(id);
        if is_default {
            self.default_node_id = Some(id);
        }
        is_default
    }

    /// Object `id` left the registry: it is no longer tracked, nor the default.
    pub fn on_global_remove(&mut self, id: u32)
        ensures
            final(self).spec_default_name() == old(self).spec_default_name(),
            final(self).spec_default_id() == if old(self).spec_default_id() == Some(id) {
                None
            } else {
                old(self).spec_default_id()
            },
            final(self).spec_nodes() == match first_node_with_id(old(self).spec_nodes(), id) {
                Some(i) => old(self).spec_nodes().remove(i),
                None => old(self).spec_nodes(),
            },
    {
        let ghost s = self.spec_nodes();
        match self.find_id(id) {
            Some(i) => {
                let _ = self.nodes.remove(i);
                proof {
                    assert(self.spec_nodes() =~= s.remove(i as int));
                }
            },
            None => {},
        }
        if self.default_node_id == Some(id) {
            self.default_node_id = None;
        }
    }

    /// The sink a volume or mute command applies to: the default one, when it is tracked.
    pub fn command_target(&self) -> (r: Option<u32>)
        ensures
            r == match self.spec_default_id() {
                Some(id) => if first_node_with_id(self.spec_nodes(), id) is Some {
                    Some(id)
                } else {
                    None
                },
                None => None,
            },
    {
        match self.default_node_id {
            Some(id) => if self.find_id(id).is_some() {
                Some(id)
            } else {
                None
            },
            None => None,
        }
    }
}

} // verus!
