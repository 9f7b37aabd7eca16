use vstd::prelude::*;

use crate::keyed::{
    lemma_keyed_absent, lemma_keyed_at, lemma_keyed_push, lemma_keyed_update, unique_keys,
};
use crate::text::same_text;
use crate::types::{
    default_guild, guild_key, guild_val, ids_unique, log_key, log_val, new_guild, opt_view,
    strings_view, utterances_view, ChannelLog, GuildInfo, GuildView, JeevesState, StateView,
    Utterance, UtteranceView,
};

verus! {

/// `s` with community `gid` created, active in `ch`, if it was unknown.
pub open spec fn ensure_guild(s: StateView, gid: Seq<char>, ch: Seq<char>) -> StateView {
    if s.contains_key(gid) {
        s
    } else {
        s.insert(gid, default_guild(ch))
    }
}

/// `g` with the log of `ch` replaced by `log`.
pub open spec fn set_log(g: GuildView, ch: Seq<char>, log: Seq<UtteranceView>) -> GuildView {
    GuildView { logs: g.logs.insert(ch, log), ..g }
}

/// `g` active in `ch` too.
pub open spec fn add_channel(g: GuildView, ch: Seq<char>) -> GuildView {
    if g.channels.contains(ch) {
        g
    } else {
        GuildView { channels: g.channels.push(ch), ..g }
    }
}

/// `g` no longer active in `ch`.
pub open spec fn drop_channel(g: GuildView, ch: Seq<char>) -> GuildView {
    GuildView { channels: g.channels.filter(|c: Seq<char>| c != ch), ..g }
}

/// `g` using model `m`.
pub open spec fn set_model(g: GuildView, m: Seq<char>) -> GuildView {
    GuildView { llm: m, ..g }
}

/// The log of `ch` in `g` holds a line with external id `id`.
pub open spec fn log_has_id(g: GuildView, ch: Seq<char>, id: Seq<char>) -> bool {
    exists|k: int| 0 <= k < g.log(ch).len() && (#[trigger] g.log(ch)[k]).id == Some(id)
}

proof fn lemma_put_back<T>(s: Seq<T>, i: int, x: T)
    requires
        0 <= i < s.len(),
    ensures
        s.remove(i).insert(i, x) == s.update(i, x),
{
    assert(s.remove(i).insert(i, x) =~= s.update(i, x));
}

/// Index of community `gid` in the store, if it is known.
pub fn find_guild(state: &JeevesState, gid: &str) -> (r: Option<usize>)
    requires
        state.wf(),
    ensures
        r is None <==> !state@.contains_key(gid@),
        r matches Some(i) ==> i < state.guilds@.len() && state.guilds@[i as int].id@ == gid@
            && state@[gid@] == state.guilds@[i as int]@,
{
    let mut i: usize = 0;
    while i < state.guilds.len()
        invariant
            state.wf(),
            i <= state.guilds@.len(),
            forall|k: int| 0 <= k < i ==> state.guilds@[k].id@ != gid@,
        decreases state.guilds.len() - i,
    {
        if same_text(state.guilds[i].id.as_str(), gid) {
            proof {
                lemma_keyed_at(
                    state.guilds@,
                    |g: GuildInfo| guild_key(g),
                    |g: GuildInfo| guild_val(g),
                    i as int,
                );
            }
            return Some(i);
        }
        i += 1;
    }
    proof {
        lemma_keyed_absent(
            state.guilds@,
            |g: GuildInfo| guild_key(g),
            |g: GuildInfo| guild_val(g),
            gid@,
        );
    }
    None
}

/// Puts community `g` back at index `i`, where its earlier value stood.
pub(crate) fn put_guild(state: &mut JeevesState, i: usize, g: GuildInfo, Ghost(before): Ghost<JeevesState>)
    requires
        before.wf(),
        i < before.guilds@.len(),
        old(state).guilds@ == before.guilds@.remove(i as int),
        g.id@ == before.guilds@[i as int].id@,
        g.wf(),
    ensures
        final(state).wf(),
        final(state)@ == before@.insert(g.id@, g@),
{
    state.guilds.insert(i, g);
    proof {
        lemma_put_back(before.guilds@, i as int, g);
        lemma_keyed_update(
            before.guilds@,
            |x: GuildInfo| guild_key(x),
            |x: GuildInfo| guild_val(x),
            i as int,
            g,
        );
        assert forall|k: int| 0 <= k < state.guilds@.len() implies (
        #[trigger] state.guilds@[k]).wf() by {
            if k != i {
                assert(state.guilds@[k] == before.guilds@[k]);
            }
        }
    }
}

/// Creates community `guild`, active in `channel_id`, unless it is already
/// known or no community is given.
pub fn create_guild_if_not_exists(
    state: &mut JeevesState,
    guild: &Option<String>,
    channel_id: &String,
)
    requires
        old(state).wf(),
    ensures
        final(state).wf(),
        final(state)@ == match guild {
            Some(g) => ensure_guild(old(state)@, g@, channel_id@),
            None => old(state)@,
        },
{
    let Some(gid) = guild else { return };
    if find_guild(state, gid.as_str()).is_some() {
        return ;
    }
    let g = new_guild(gid, channel_id);
    proof {
        lemma_keyed_push(
            state.guilds@,
            |x: GuildInfo| guild_key(x),
            |x: GuildInfo| guild_val(x),
            g,
        );
    }
    let ghost before = state.guilds@;
    state.guilds.push(g);
    proof {
        assert forall|k: int| 0 <= k < state.guilds@.len() implies (
        #[trigger] state.guilds@[k]).wf() by {
            if k < before.len() {
                assert(state.guilds@[k] == before[k]);
            }
        }
    }
}

impl GuildInfo {
    /// Index of the log of channel `ch`, if the community has one.
    pub fn find_log(&self, ch: &str) -> (r: Option<usize>)
        requires
            self.wf(),
        ensures
            r is None <==> !self@.logs.contains_key(ch@),
            r matches Some(j) ==> j < self.message_log@.len()
                && self.message_log@[j as int].channel_id@ == ch@ && self@.logs[ch@]
                == utterances_view(self.message_log@[j as int].utterances@),
    {
        let mut j: usize = 0;
        while j < self.message_log.len()
            invariant
                self.wf(),
                j <= self.message_log@.len(),
                forall|k: int| 0 <= k < j ==> self.message_log@[k].channel_id@ != ch@,
            decreases self.message_log.len() - j,
        {
            if same_text(self.message_log[j].channel_id.as_str(), ch) {
                proof {
                    lemma_keyed_at(
                        self.message_log@,
                        |l: ChannelLog| log_key(l),
                        |l: ChannelLog| log_val(l),
                        j as int,
                    );
                }
                return Some(j);
            }
            j += 1;
        }
        proof {
            lemma_keyed_absent(
                self.message_log@,
                |l: ChannelLog| log_key(l),
                |l: ChannelLog| log_val(l),
                ch@,
            );
        }
        None
    }

    /// Number of lines recorded for channel `ch`.
    pub fn log_len(&self, ch: &str) -> (r: usize)
        requires
            self.wf(),
        ensures
            r == self@.log(ch@).len(),
    {
        match self.find_log(ch) {
            Some(j) => self.message_log[j].utterances.len(),
            None => 0,
        }
    }

    /// The log of channel `ch` holds a line with external id `id`.
    pub fn has_message(&self, ch: &str, id: &str) -> (r: bool)
        requires
            self.wf(),
        ensures
            r == log_has_id(self@, ch@, id@),
    {
        let Some(j) = self.find_log(ch) else { return false };
        let us = &self.message_log[j].utterances;
        let mut k: usize = 0;
        while k < us.len()
            invariant
                k <= us@.len(),
                self@.log(ch@) == utterances_view(us@),
                forall|m: int| 0 <= m < k ==> self@.log(ch@)[m].id != Some(id@),
            decreases us.len() - k,
        {
            if let Some(x) = &us[k].id {
                if same_text(x.as_str(), id) {
                    assert(self@.log(ch@)[k as int].id == Some(id@));
                    return true;
                }
            }
            k += 1;
        }
        false
    }

    /// Replaces the log of channel `ch` by `us`.
    pub fn replace_log(&mut self, ch: &String, us: Vec<Utterance>)
        requires
            old(self).wf(),
            ids_unique(utterances_view(us@)),
        ensures
            final(self).wf(),
            final(self)@ == set_log(old(self)@, ch@, utterances_view(us@)),
            final(self).id == old(self).id,
    {
        let entry = ChannelLog { channel_id: ch.clone(), utterances: us };
        let ghost before = *self;
        let ghost key = |l: ChannelLog| log_key(l);
        let ghost val = |l: ChannelLog| log_val(l);
        match self.find_log(ch.as_str()) {
            Some(j) => {
                self.message_log.remove(j);
                self.message_log.insert(j, entry);
                proof {
                    lemma_put_back(before.message_log@, j as int, entry);
                    lemma_keyed_update(before.message_log@, key, val, j as int, entry);
                }
            },
            None => {
                proof {
                    lemma_keyed_push(before.message_log@, key, val, entry);
                }
                self.message_log.push(entry);
            },
        }
        assert(self@ =~= set_log(before@, ch@, utterances_view(us@)));
        assert forall|c: Seq<char>| #[trigger] self@.logs.contains_key(c) implies ids_unique(
            self@.logs[c],
        ) by {
            if c != ch@ {
                assert(before@.logs.contains_key(c));
            }
        }
    }

    /// Takes the log of channel `ch` out, leaving it empty.
    pub fn take_log(&mut self, ch: &String) -> (us: Vec<Utterance>)
        requires
            old(self).wf(),
        ensures
            final(self).wf(),
            final(self)@ == set_log(old(self)@, ch@, Seq::empty()),
            final(self).id == old(self).id,
            utterances_view(us@) == old(self)@.log(ch@),
    {
        let ghost before = *self;
        let mut us: Vec<Utterance> = Vec::new();
        if let Some(j) = self.find_log(ch.as_str()) {
            let mut entry = self.message_log.remove(j);
            std::mem::swap(&mut us, &mut entry.utterances);
            self.message_log.insert(j, entry);
            proof {
                lemma_put_back(before.message_log@, j as int, entry);
                lemma_keyed_update(
                    before.message_log@,
                    |l: ChannelLog| log_key(l),
                    |l: ChannelLog| log_val(l),
                    j as int,
                    entry,
                );
            }
            assert(utterances_view(entry.utterances@) =~= Seq::<UtteranceView>::empty());
        } else {
            let empty: Vec<Utterance> = Vec::new();
            assert(utterances_view(empty@) =~= Seq::<UtteranceView>::empty());
            self.replace_log(ch, empty);
        }
        assert(self@ =~= set_log(before@, ch@, Seq::empty()));
        assert forall|c: Seq<char>| #[trigger] self@.logs.contains_key(c) implies ids_unique(
            self@.logs[c],
        ) by {
            if c != ch@ {
                assert(before@.logs.contains_key(c));
            }
        }
        us
    }

    /// Appends `u` to the log of channel `ch`.
    pub fn push_utterance(&mut self, ch: &String, u: Utterance)
        requires
            old(self).wf(),
            u.id matches Some(x) ==> !log_has_id(old(self)@, ch@, x@),
        ensures
            final(self).wf(),
            final(self)@ == set_log(old(self)@, ch@, old(self)@.log(ch@).push(u@)),
            final(self).id == old(self).id,
    {
        let ghost before = *self;
        let mut us = self.take_log(ch);
        let ghost uv = u@;
        us.push(u);
        assert(utterances_view(us@) =~= before@.log(ch@).push(uv));
        assert(ids_unique(utterances_view(us@))) by {
            let l = utterances_view(us@);
            let n = l.len() - 1;
            assert forall|i: int, j: int|
                0 <= i < l.len() && 0 <= j < l.len() && l[i].id is Some && l[i].id == l[j].id
                    implies i == j by {
                if before@.logs.contains_key(ch@) {
                    assert(before@.logs[ch@] == before@.log(ch@));
                }
                if i == n && j < n {
                    assert(before@.log(ch@)[j] == l[j]);
                } else if j == n && i < n {
                    assert(before@.log(ch@)[i] == l[i]);
                }
            }
        }
        self.replace_log(ch, us);
        assert(before@.logs.insert(ch@, Seq::empty()).insert(ch@, before@.log(ch@).push(uv))
            =~= before@.logs.insert(ch@, before@.log(ch@).push(uv)));
    }

    /// Marks channel `ch` active, if it was not.
    pub fn add_channel(&mut self, ch: &String)
        requires
            old(self).wf(),
        ensures
            final(self).wf(),
            final(self)@ == add_channel(old(self)@, ch@),
            final(self).id == old(self).id,
    {
        let ghost before = *self;
        if !crate::text::contains_string(&self.our_channels, ch.as_str()) {
            self.our_channels.push(ch.clone());
            assert(strings_view(self.our_channels@) =~= strings_view(before.our_channels@).push(
                ch@,
            ));
        }
        assert(self@ =~= add_channel(before@, ch@));
    }

    /// Marks channel `ch` inactive.
    pub fn remove_channel(&mut self, ch: &String)
        requires
            old(self).wf(),
        ensures
            final(self).wf(),
            final(self)@ == drop_channel(old(self)@, ch@),
            final(self).id == old(self).id,
    {
        let ghost before = *self;
        let ghost pred = |c: Seq<char>| c != ch@;
        let mut kept: Vec<String> = Vec::new();
        let mut i: usize = 0;
        assert(strings_view(self.our_channels@.subrange(0, 0)) =~= Seq::<Seq<char>>::empty());
        while i < self.our_channels.len()
            invariant
                i <= self.our_channels@.len(),
                strings_view(kept@) == strings_view(self.our_channels@.subrange(0, i as int)).filter(
                    pred,
                ),
                pred == (|c: Seq<char>| c != ch@),
            decreases self.our_channels.len() - i,
        {
            let ghost prefix = strings_view(self.our_channels@.subrange(0, i as int));
            let c = &self.our_channels[i];
            assert(strings_view(self.our_channels@.subrange(0, i + 1)) =~= prefix.push(c@));
            proof {
                prefix.lemma_filter_push(c@, pred);
            }
            if !same_text(c.as_str(), ch.as_str()) {
                let ghost kv = kept@;
                kept.push(c.clone());
                assert(strings_view(kept@) =~= strings_view(kv).push(c@));
            }
            i += 1;
        }
        assert(self.our_channels@.subrange(0, i as int) =~= self.our_channels@);
        self.our_channels = kept;
        assert(self@ =~= drop_channel(before@, ch@));
    }

    /// Switches the community to model `m`.
    pub fn set_model(&mut self, m: &String)
        requires
            old(self).wf(),
        ensures
            final(self).wf(),
            final(self)@ == set_model(old(self)@, m@),
            final(self).id == old(self).id,
    {
        let ghost before = *self;
        self.llm = m.clone();
        assert(self@ =~= set_model(before@, m@));
    }
}

/// `a` is an external id, and `b` is the same one.
fn same_id(a: &Option<String>, b: &Option<String>) -> (r: bool)
    ensures
        r == (a is Some && opt_view(*a) == opt_view(*b)),
{
    match (a, b) {
        (Some(x), Some(y)) => same_text(x.as_str(), y.as_str()),
        _ => false,
    }
}

/// No two lines of `us` carry the same external id.
pub fn log_ids_unique(us: &Vec<Utterance>) -> (r: bool)
    ensures
        r == ids_unique(utterances_view(us@)),
{
    let ghost l = utterances_view(us@);
    let mut i: usize = 0;
    while i < us.len()
        invariant
            i <= us@.len(),
            l == utterances_view(us@),
            forall|a: int, b: int|
                0 <= a < i && 0 <= b < i && (#[trigger] l[a]).id is Some && l[a].id == (
                #[trigger] l[b]).id ==> a == b,
        decreases us.len() - i,
    {
        let mut j: usize = 0;
        while j < i
            invariant
                j <= i < us@.len(),
                l == utterances_view(us@),
                forall|b: int| 0 <= b < j ==> !(l[i as int].id is Some && l[i as int].id == (
                #[trigger] l[b]).id),
            decreases i - j,
        {
            if same_id(&us[i].id, &us[j].id) {
                assert(l[i as int].id is Some && l[i as int].id == l[j as int].id);
                return false;
            }
            j += 1;
        }
        i += 1;
    }
    true
}

impl GuildInfo {
    /// The community's invariant holds: one log per channel, and no external
    /// id twice in a log.
    pub fn is_well_formed(&self) -> (r: bool)
        ensures
            r == self.wf(),
    {
        let ghost key = |l: ChannelLog| log_key(l);
        let n = self.message_log.len();
        let mut i: usize = 0;
        while i < n
            invariant
                n == self.message_log@.len(),
                i <= n,
                key == (|l: ChannelLog| log_key(l)),
                forall|a: int, b: int|
                    0 <= a < i && 0 <= b < i && key(#[trigger] self.message_log@[a]) == key(
                        #[trigger] self.message_log@[b],
                    ) ==> a == b,
                forall|a: int|
                    0 <= a < i ==> ids_unique(
                        utterances_view((#[trigger] self.message_log@[a]).utterances@),
                    ),
            decreases n - i,
        {
            let mut j: usize = 0;
            while j < i
                invariant
                    j <= i < n,
                    n == self.message_log@.len(),
                    key == (|l: ChannelLog| log_key(l)),
                    forall|a: int, b: int|
                        0 <= a < i && 0 <= b < i && key(#[trigger] self.message_log@[a]) == key(
                            #[trigger] self.message_log@[b],
                        ) ==> a == b,
                    forall|a: int|
                        0 <= a < i ==> ids_unique(
                            utterances_view((#[trigger] self.message_log@[a]).utterances@),
                        ),
                    forall|b: int|
                        0 <= b < j ==> self.message_log@[i as int].channel_id@ != (
                        #[trigger] self.message_log@[b]).channel_id@,
                decreases i - j,
            {
                if same_text(
                    self.message_log[i].channel_id.as_str(),
                    self.message_log[j].channel_id.as_str(),
                ) {
                    assert(key(self.message_log@[i as int]) == key(self.message_log@[j as int]));
                    assert(!unique_keys(self.message_log@, key));
                    return false;
                }
                j += 1;
            }
            if !log_ids_unique(&self.message_log[i].utterances) {
                assert(unique_keys(self.message_log@, key) ==> !self@.wf()) by {
                    if unique_keys(self.message_log@, key) {
                        lemma_keyed_at(
                            self.message_log@,
                            key,
                            |l: ChannelLog| log_val(l),
                            i as int,
                        );
                        assert(self@.logs.contains_key(self.message_log@[i as int].channel_id@));
                    }
                }
                return false;
            }
            i += 1;
        }
        assert(unique_keys(self.message_log@, key));
        assert forall|c: Seq<char>| #[trigger] self@.logs.contains_key(c) implies ids_unique(
            self@.logs[c],
        ) by {
            let a = choose|a: int| 0 <= a < n && key(self.message_log@[a]) == c;
            lemma_keyed_at(self.message_log@, key, |l: ChannelLog| log_val(l), a);
        }
        true
    }
}

impl JeevesState {
    /// The store's invariant holds: one entry per community, each of them
    /// well formed. A store read from outside is checked with this first.
    pub fn is_well_formed(&self) -> (r: bool)
        ensures
            r == self.wf(),
    {
        let ghost key = |g: GuildInfo| guild_key(g);
        let n = self.guilds.len();
        let mut i: usize = 0;
        while i < n
            invariant
                n == self.guilds@.len(),
                i <= n,
                key == (|g: GuildInfo| guild_key(g)),
                forall|a: int, b: int|
                    0 <= a < i && 0 <= b < i && key(#[trigger] self.guilds@[a]) == key(
                        #[trigger] self.guilds@[b],
                    ) ==> a == b,
                forall|a: int| 0 <= a < i ==> (#[trigger] self.guilds@[a]).wf(),
            decreases n - i,
        {
            let mut j: usize = 0;
            while j < i
                invariant
                    j <= i < n,
                    n == self.guilds@.len(),
                    key == (|g: GuildInfo| guild_key(g)),
                    forall|a: int, b: int|
                        0 <= a < i && 0 <= b < i && key(#[trigger] self.guilds@[a]) == key(
                            #[trigger] self.guilds@[b],
                        ) ==> a == b,
                    forall|a: int| 0 <= a < i ==> (#[trigger] self.guilds@[a]).wf(),
                    forall|b: int|
                        0 <= b < j ==> self.guilds@[i as int].id@ != (
                        #[trigger] self.guilds@[b]).id@,
                decreases i - j,
            {
                if same_text(self.guilds[i].id.as_str(), self.guilds[j].id.as_str()) {
                    assert(key(self.guilds@[i as int]) == key(self.guilds@[j as int]));
                    assert(!unique_keys(self.guilds@, key));
                    return false;
                }
                j += 1;
            }
            if !self.guilds[i].is_well_formed() {
                return false;
            }
            i += 1;
        }
        true
    }
}

} // verus!
