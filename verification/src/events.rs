//! Options for the event-notification feed: timestamps and filters,
//! serialized into the query string of the `/events` request.

use vstd::prelude::*;

use crate::strnum::{dec_digits, u64_to_dec};

verus! {

/// The query string that percent-encoding `key=value` pairs yields.
pub uninterp spec fn form_urlencoded_of(pairs: Seq<(Seq<char>, Seq<char>)>) -> Seq<char>;

/// Relies on `url::form_urlencoded::Serializer`: percent-encodes each key
/// and value and joins the `key=value` pairs with `&`. The result depends
/// on the pairs alone.
#[verifier::external_body]
fn encode_form_pairs(pairs: &Vec<(String, String)>) -> (r: String)
    ensures
        r@ == form_urlencoded_of(pairs.deep_view()),
{
    let mut ser = url::form_urlencoded::Serializer::new(String::new());
    ser.extend_pairs(pairs.iter().map(|p| (&p.0, &p.1)));
    ser.finish()
}

/// The JSON document that encoding filter groups as an object of string
/// arrays yields.
pub uninterp spec fn json_filter_doc_of(groups: Seq<(Seq<char>, Seq<Seq<char>>)>) -> Seq<char>;

/// Relies on `serde_json::to_string` on a `serde_json::Map` built from the
/// groups: one object whose keys map to arrays of strings. The map is
/// ordered by key, so the result depends on the groups alone; serializing
/// a string-keyed `serde_json::Value` cannot fail.
#[verifier::external_body]
fn encode_filter_groups(groups: &Vec<(String, Vec<String>)>) -> (r: String)
    ensures
        r@ == json_filter_doc_of(groups.deep_view()),
{
    let m: serde_json::Map<String, serde_json::Value> = groups
        .iter()
        .map(
            |g: &(String, Vec<String>)|
                (
                    g.0.clone(),
                    serde_json::Value::Array(
                        g.1.iter().map(|s| serde_json::Value::String(s.clone())).collect(),
                    ),
                ),
        )
        .collect();
    serde_json::to_string(&serde_json::Value::Object(m)).unwrap()
}

/// The view of an optional string.
pub open spec fn opt_str_view(o: Option<String>) -> Option<Seq<char>> {
    match o {
        Option::Some(s) => Option::Some(s@),
        Option::None => Option::None,
    }
}

/// Options for filtering the stream of daemon events.
#[derive(Debug, Default)]
pub struct EventsOptions {
    /// The `since` timestamp parameter, already rendered in decimal.
    pub since: Option<String>,
    /// The `until` timestamp parameter, already rendered in decimal.
    pub until: Option<String>,
    /// The `filters` parameter: a JSON object of string arrays.
    pub filters: Option<String>,
}

impl EventsOptions {
    /// The `key=value` pairs this set of options serializes to, in the
    /// fixed order `since`, `until`, `filters`.
    pub open spec fn spec_pairs(&self) -> Seq<(Seq<char>, Seq<char>)> {
        (match self.since {
            Option::Some(s) => seq![("since"@, s@)],
            Option::None => Seq::empty(),
        }) + (match self.until {
            Option::Some(u) => seq![("until"@, u@)],
            Option::None => Seq::empty(),
        }) + (match self.filters {
            Option::Some(f) => seq![("filters"@, f@)],
            Option::None => Seq::empty(),
        })
    }

    /// A builder that starts with no options set.
    pub fn builder() -> (r: EventsOptionsBuilder)
        ensures
            r.since is None && r.until is None && r.filters is None,
            r.events@.len() == 0 && r.containers@.len() == 0 && r.images@.len() == 0
                && r.labels@.len() == 0,
            r.volumes@.len() == 0 && r.networks@.len() == 0 && r.daemons@.len() == 0
                && r.types@.len() == 0,
    {
        EventsOptionsBuilder {
            since: None,
            until: None,
            filters: None,
            events: Vec::new(),
            containers: Vec::new(),
            images: Vec::new(),
            labels: Vec::new(),
            volumes: Vec::new(),
            networks: Vec::new(),
            daemons: Vec::new(),
            types: Vec::new(),
        }
    }

    /// Serializes the options as a percent-encoded query string, or `None`
    /// if no option is set.
    pub fn serialize(&self) -> (r: Option<String>)
        ensures
            self.spec_pairs().len() == 0 ==> r is None,
            self.spec_pairs().len() > 0 ==> (r matches Some(s) && s@ == form_urlencoded_of(
                self.spec_pairs(),
            )),
    {
        let mut pairs: Vec<(String, String)> = Vec::new();
        match &self.since {
            Some(s) => {
                pairs.push(("since".to_owned(), s.clone()));
            },
            None => {},
        }
        match &self.until {
            Some(u) => {
                pairs.push(("until".to_owned(), u.clone()));
            },
            None => {},
        }
        match &self.filters {
            Some(f) => {
                pairs.push(("filters".to_owned(), f.clone()));
            },
            None => {},
        }
        proof {
            assert(pairs.deep_view() =~~= self.spec_pairs());
        }
        if pairs.len() == 0 {
            None
        } else {
            Some(encode_form_pairs(&pairs))
        }
    }
}

/// The request path of the event feed for a set of options: `/events`,
/// with the serialized options as its query string when any is set.
pub fn events_path(opts: &EventsOptions) -> (r: String)
    ensures
        opts.spec_pairs().len() == 0 ==> r@ == "/events"@,
        opts.spec_pairs().len() > 0 ==> r@ == "/events?"@ + form_urlencoded_of(opts.spec_pairs()),
{
    proof {
        reveal_strlit("/events");
        reveal_strlit("/events?");
    }
    match opts.serialize() {
        None => "/events".to_owned(),
        Some(q) => {
            let mut s = "/events?".to_owned();
            s.append(q.as_str());
            s
        },
    }
}

/// The kinds of object an event filter can single out.
#[derive(Copy, Clone, Debug)]
pub enum EventFilterType {
    /// Container events.
    Container,
    /// Image events.
    Image,
    /// Volume events.
    Volume,
    /// Network events.
    Network,
    /// Daemon events.
    Daemon,
}

/// The query value of an event filter type.
pub open spec fn spec_type_str(t: EventFilterType) -> Seq<char> {
    match t {
        EventFilterType::Container => "container"@,
        EventFilterType::Image => "image"@,
        EventFilterType::Volume => "volume"@,
        EventFilterType::Network => "network"@,
        EventFilterType::Daemon => "daemon"@,
    }
}

/// The query value of an event filter type.
pub fn event_filter_type_to_string(filter: EventFilterType) -> (r: &'static str)
    ensures
        r@ == spec_type_str(filter),
{
    match filter {
        EventFilterType::Container => "container",
        EventFilterType::Image => "image",
        EventFilterType::Volume => "volume",
        EventFilterType::Network => "network",
        EventFilterType::Daemon => "daemon",
    }
}

/// One filter on the stream of events.
#[derive(Debug)]
pub enum EventFilter {
    /// Keep events of the named container.
    Container(String),
    /// Keep events of the named action.
    Event(String),
    /// Keep events of the named image.
    Image(String),
    /// Keep events carrying the given label.
    Label(String),
    /// Keep events of one object kind.
    Type(EventFilterType),
    /// Keep events of the named volume.
    Volume(String),
    /// Keep events of the named network.
    Network(String),
    /// Keep events of the named daemon.
    Daemon(String),
}

/// The filter categories, one per key of the `filters` JSON object.
#[derive(Copy, Clone, PartialEq, Eq, Structural)]
pub enum FilterCategory {
    /// The `container` key.
    Container,
    /// The `daemon` key.
    Daemon,
    /// The `event` key.
    Event,
    /// The `image` key.
    Image,
    /// The `label` key.
    Label,
    /// The `network` key.
    Network,
    /// The `type` key.
    Type,
    /// The `volume` key.
    Volume,
}

/// The category a filter belongs to.
pub open spec fn filter_cat(f: EventFilter) -> FilterCategory {
    match f {
        EventFilter::Container(_) => FilterCategory::Container,
        EventFilter::Event(_) => FilterCategory::Event,
        EventFilter::Image(_) => FilterCategory::Image,
        EventFilter::Label(_) => FilterCategory::Label,
        EventFilter::Type(_) => FilterCategory::Type,
        EventFilter::Volume(_) => FilterCategory::Volume,
        EventFilter::Network(_) => FilterCategory::Network,
        EventFilter::Daemon(_) => FilterCategory::Daemon,
    }
}

/// The query value a filter contributes.
pub open spec fn filter_val(f: EventFilter) -> Seq<char> {
    match f {
        EventFilter::Container(n) => n@,
        EventFilter::Event(n) => n@,
        EventFilter::Image(n) => n@,
        EventFilter::Label(n) => n@,
        EventFilter::Type(t) => spec_type_str(t),
        EventFilter::Volume(n) => n@,
        EventFilter::Network(n) => n@,
        EventFilter::Daemon(n) => n@,
    }
}

/// The values the filters of category `c` in `fs` contribute, in order.
pub open spec fn cat_values(fs: Seq<EventFilter>, c: FilterCategory) -> Seq<Seq<char>>
    decreases fs.len(),
{
    if fs.len() == 0 {
        Seq::empty()
    } else {
        let rest = cat_values(fs.drop_last(), c);
        if filter_cat(fs.last()) == c {
            rest.push(filter_val(fs.last()))
        } else {
            rest
        }
    }
}

/// A group segment: one key with its list when the condition holds,
/// nothing otherwise.
pub open spec fn seg(b: bool, key: Seq<char>, vals: Seq<Seq<char>>) -> Seq<
    (Seq<char>, Seq<Seq<char>>),
> {
    if b {
        seq![(key, vals)]
    } else {
        Seq::empty()
    }
}

/// The `filters` JSON groups after a call that touched some categories:
/// each touched category's key with its full running list, in fixed key
/// order.
pub open spec fn touched_groups(
    containers: Seq<Seq<char>>,
    daemons: Seq<Seq<char>>,
    events: Seq<Seq<char>>,
    images: Seq<Seq<char>>,
    labels: Seq<Seq<char>>,
    networks: Seq<Seq<char>>,
    types: Seq<Seq<char>>,
    volumes: Seq<Seq<char>>,
    fs: Seq<EventFilter>,
) -> Seq<(Seq<char>, Seq<Seq<char>>)> {
    seg(cat_values(fs, FilterCategory::Container).len() > 0, "container"@, containers) + seg(
        cat_values(fs, FilterCategory::Daemon).len() > 0,
        "daemon"@,
        daemons,
    ) + seg(cat_values(fs, FilterCategory::Event).len() > 0, "event"@, events) + seg(
        cat_values(fs, FilterCategory::Image).len() > 0,
        "image"@,
        images,
    ) + seg(cat_values(fs, FilterCategory::Label).len() > 0, "label"@, labels) + seg(
        cat_values(fs, FilterCategory::Network).len() > 0,
        "network"@,
        networks,
    ) + seg(cat_values(fs, FilterCategory::Type).len() > 0, "type"@, types) + seg(
        cat_values(fs, FilterCategory::Volume).len() > 0,
        "volume"@,
        volumes,
    )
}

/// One step of `cat_values` over a growing prefix of the filters.
proof fn lemma_cat_values_step(fs: Seq<EventFilter>, i: int, c: FilterCategory)
    requires
        0 <= i < fs.len(),
    ensures
        cat_values(fs.subrange(0, i + 1), c) == if filter_cat(fs[i]) == c {
            cat_values(fs.subrange(0, i), c).push(filter_val(fs[i]))
        } else {
            cat_values(fs.subrange(0, i), c)
        },
{
    assert(fs.subrange(0, i + 1).drop_last() =~= fs.subrange(0, i));
    assert(fs.subrange(0, i + 1).last() == fs[i]);
}

/// One step of `cat_values` over a growing prefix, shifted by an already
/// accumulated list.
proof fn lemma_cat_values_step_concat(
    fs: Seq<EventFilter>,
    i: int,
    c: FilterCategory,
    base: Seq<Seq<char>>,
)
    requires
        0 <= i < fs.len(),
    ensures
        base + cat_values(fs.subrange(0, i + 1), c) == if filter_cat(fs[i]) == c {
            (base + cat_values(fs.subrange(0, i), c)).push(filter_val(fs[i]))
        } else {
            base + cat_values(fs.subrange(0, i), c)
        },
{
    lemma_cat_values_step(fs, i, c);
    if filter_cat(fs[i]) == c {
        assert(base + cat_values(fs.subrange(0, i), c).push(filter_val(fs[i])) =~= (base
            + cat_values(fs.subrange(0, i), c)).push(filter_val(fs[i])));
    }
}

/// A copy of a vector of strings, equal at the level of views.
fn clone_str_vec(v: &Vec<String>) -> (r: Vec<String>)
    ensures
        r.deep_view() == v.deep_view(),
{
    let mut r: Vec<String> = Vec::new();
    let mut i: usize = 0;
    while i < v.len()
        invariant
            0 <= i <= v.len(),
            r.deep_view() == v.deep_view().subrange(0, i as int),
        decreases v.len() - i,
    {
        let ghost pre = r.deep_view();
        let s = v[i].clone();
        assert(s@ == v@[i as int]@);
        r.push(s);
        i += 1;
        proof {
            assert(r.deep_view() =~~= pre.push(v@[i - 1]@));
            assert(r.deep_view() =~~= v.deep_view().subrange(0, i as int));
        }
    }
    proof {
        assert(v.deep_view().subrange(0, v.deep_view().len() as int) =~= v.deep_view());
    }
    r
}

/// Builder interface for [`EventsOptions`].
#[derive(Debug)]
pub struct EventsOptionsBuilder {
    /// The `since` parameter, once set.
    pub since: Option<String>,
    /// The `until` parameter, once set.
    pub until: Option<String>,
    /// The `filters` JSON document, once any filter was given.
    pub filters: Option<String>,
    /// Every `event` filter value given so far.
    pub events: Vec<String>,
    /// Every `container` filter value given so far.
    pub containers: Vec<String>,
    /// Every `image` filter value given so far.
    pub images: Vec<String>,
    /// Every `label` filter value given so far.
    pub labels: Vec<String>,
    /// Every `volume` filter value given so far.
    pub volumes: Vec<String>,
    /// Every `network` filter value given so far.
    pub networks: Vec<String>,
    /// Every `daemon` filter value given so far.
    pub daemons: Vec<String>,
    /// Every `type` filter value given so far.
    pub types: Vec<String>,
}

impl Default for EventsOptionsBuilder {
    /// A builder with no options set.
    fn default() -> (r: Self)
        ensures
            r.since is None && r.until is None && r.filters is None,
            r.events@.len() == 0 && r.containers@.len() == 0 && r.images@.len() == 0
                && r.labels@.len() == 0,
            r.volumes@.len() == 0 && r.networks@.len() == 0 && r.daemons@.len() == 0
                && r.types@.len() == 0,
    {
        EventsOptions::builder()
    }
}

impl EventsOptionsBuilder {
    /// Keep only events at or after the given timestamp.
    pub fn since(&mut self, ts: &u64)
        ensures
            final(self).since matches Some(s) && s@ == dec_digits(*ts as nat),
            final(self).until == old(self).until,
            final(self).filters == old(self).filters,
            final(self).events == old(self).events,
            final(self).containers == old(self).containers,
            final(self).images == old(self).images,
            final(self).labels == old(self).labels,
            final(self).volumes == old(self).volumes,
            final(self).networks == old(self).networks,
            final(self).daemons == old(self).daemons,
            final(self).types == old(self).types,
    {
        self.since = Some(u64_to_dec(*ts));
    }

    /// Keep only events before the given timestamp.
    pub fn until(&mut self, ts: &u64)
        ensures
            final(self).until matches Some(s) && s@ == dec_digits(*ts as nat),
            final(self).since == old(self).since,
            final(self).filters == old(self).filters,
            final(self).events == old(self).events,
            final(self).containers == old(self).containers,
            final(self).images == old(self).images,
            final(self).labels == old(self).labels,
            final(self).volumes == old(self).volumes,
            final(self).networks == old(self).networks,
            final(self).daemons == old(self).daemons,
            final(self).types == old(self).types,
    {
        self.until = Some(u64_to_dec(*ts));
    }

    /// Appends one filter's value to its category's running list.
    fn apply_filter(&mut self, f: &EventFilter)
        ensures
            final(self).containers.deep_view() == (if filter_cat(*f) == FilterCategory::Container {
                old(self).containers.deep_view().push(filter_val(*f))
            } else {
                old(self).containers.deep_view()
            }),
            final(self).daemons.deep_view() == (if filter_cat(*f) == FilterCategory::Daemon {
                old(self).daemons.deep_view().push(filter_val(*f))
            } else {
                old(self).daemons.deep_view()
            }),
            final(self).events.deep_view() == (if filter_cat(*f) == FilterCategory::Event {
                old(self).events.deep_view().push(filter_val(*f))
            } else {
                old(self).events.deep_view()
            }),
            final(self).images.deep_view() == (if filter_cat(*f) == FilterCategory::Image {
                old(self).images.deep_view().push(filter_val(*f))
            } else {
                old(self).images.deep_view()
            }),
            final(self).labels.deep_view() == (if filter_cat(*f) == FilterCategory::Label {
                old(self).labels.deep_view().push(filter_val(*f))
            } else {
                old(self).labels.deep_view()
            }),
            final(self).networks.deep_view() == (if filter_cat(*f) == FilterCategory::Network {
                old(self).networks.deep_view().push(filter_val(*f))
            } else {
                old(self).networks.deep_view()
            }),
            final(self).types.deep_view() == (if filter_cat(*f) == FilterCategory::Type {
                old(self).types.deep_view().push(filter_val(*f))
            } else {
                old(self).types.deep_view()
            }),
            final(self).volumes.deep_view() == (if filter_cat(*f) == FilterCategory::Volume {
                old(self).volumes.deep_view().push(filter_val(*f))
            } else {
                old(self).volumes.deep_view()
            }),
            final(self).since == old(self).since,
            final(self).until == old(self).until,
            final(self).filters == old(self).filters,
    {
        match f {
            EventFilter::Container(n) => {
                let ghost pre = self.containers.deep_view();
                self.containers.push(n.clone());
                proof {
                    assert(self.containers.deep_view() =~~= pre.push(n@));
                }
            },
            EventFilter::Event(n) => {
                let ghost pre = self.events.deep_view();
                self.events.push(n.clone());
                proof {
                    assert(self.events.deep_view() =~~= pre.push(n@));
                }
            },
            EventFilter::Image(n) => {
                let ghost pre = self.images.deep_view();
                self.images.push(n.clone());
                proof {
                    assert(self.images.deep_view() =~~= pre.push(n@));
                }
            },
            EventFilter::Label(n) => {
                let ghost pre = self.labels.deep_view();
                self.labels.push(n.clone());
                proof {
                    assert(self.labels.deep_view() =~~= pre.push(n@));
                }
            },
            EventFilter::Volume(n) => {
                let ghost pre = self.volumes.deep_view();
                self.volumes.push(n.clone());
                proof {
                    assert(self.volumes.deep_view() =~~= pre.push(n@));
                }
            },
            EventFilter::Network(n) => {
                let ghost pre = self.networks.deep_view();
                self.networks.push(n.clone());
                proof {
                    assert(self.networks.deep_view() =~~= pre.push(n@));
                }
            },
            EventFilter::Daemon(n) => {
                let ghost pre = self.daemons.deep_view();
                self.daemons.push(n.clone());
                proof {
                    assert(self.daemons.deep_view() =~~= pre.push(n@));
                }
            },
            EventFilter::Type(t) => {
                let ghost pre = self.types.deep_view();
                let s = event_filter_type_to_string(*t).to_owned();
                self.types.push(s);
                proof {
                    assert(self.types.deep_view() =~~= pre.push(filter_val(*f)));
                }
            },
        }
    }

    /// The `filters` JSON groups for the categories flagged as touched,
    /// each with its full running list, in fixed key order.
    #[verifier::rlimit(60)]
    fn assemble_groups(
        &self,
        t_container: bool,
        t_daemon: bool,
        t_event: bool,
        t_image: bool,
        t_label: bool,
        t_network: bool,
        t_type: bool,
        t_volume: bool,
    ) -> (groups: Vec<(String, Vec<String>)>)
        ensures
            groups.deep_view() == seg(t_container, "container"@, self.containers.deep_view()) + seg(
                t_daemon,
                "daemon"@,
                self.daemons.deep_view(),
            ) + seg(t_event, "event"@, self.events.deep_view()) + seg(
                t_image,
                "image"@,
                self.images.deep_view(),
            ) + seg(t_label, "label"@, self.labels.deep_view()) + seg(
                t_network,
                "network"@,
                self.networks.deep_view(),
            ) + seg(t_type, "type"@, self.types.deep_view()) + seg(
                t_volume,
                "volume"@,
                self.volumes.deep_view(),
            ),
    {
        let ghost s1 = seg(t_container, "container"@, self.containers.deep_view());
        let ghost s2 = seg(t_daemon, "daemon"@, self.daemons.deep_view());
        let ghost s3 = seg(t_event, "event"@, self.events.deep_view());
        let ghost s4 = seg(t_image, "image"@, self.images.deep_view());
        let ghost s5 = seg(t_label, "label"@, self.labels.deep_view());
        let ghost s6 = seg(t_network, "network"@, self.networks.deep_view());
        let ghost s7 = seg(t_type, "type"@, self.types.deep_view());
        let ghost s8 = seg(t_volume, "volume"@, self.volumes.deep_view());
        let mut groups: Vec<(String, Vec<String>)> = Vec::new();
        if t_container {
            groups.push(("container".to_owned(), clone_str_vec(&self.containers)));
        }
        proof {
            assert(groups.deep_view() =~~= s1);
        }
        if t_daemon {
            groups.push(("daemon".to_owned(), clone_str_vec(&self.daemons)));
        }
        proof {
            assert(groups.deep_view() =~~= s1 + s2);
        }
        if t_event {
            groups.push(("event".to_owned(), clone_str_vec(&self.events)));
        }
        proof {
            assert(groups.deep_view() =~~= s1 + s2 + s3);
        }
        if t_image {
            groups.push(("image".to_owned(), clone_str_vec(&self.images)));
        }
        proof {
            assert(groups.deep_view() =~~= s1 + s2 + s3 + s4);
        }
        if t_label {
            groups.push(("label".to_owned(), clone_str_vec(&self.labels)));
        }
        proof {
            assert(groups.deep_view() =~~= s1 + s2 + s3 + s4 + s5);
        }
        if t_network {
            groups.push(("network".to_owned(), clone_str_vec(&self.networks)));
        }
        proof {
            assert(groups.deep_view() =~~= s1 + s2 + s3 + s4 + s5 + s6);
        }
        if t_type {
            groups.push(("type".to_owned(), clone_str_vec(&self.types)));
        }
        proof {
            assert(groups.deep_view() =~~= s1 + s2 + s3 + s4 + s5 + s6 + s7);
        }
        if t_volume {
            groups.push(("volume".to_owned(), clone_str_vec(&self.volumes)));
        }
        proof {
            assert(groups.deep_view() =~~= s1 + s2 + s3 + s4 + s5 + s6 + s7 + s8);
        }
        groups
    }

    /// Records the given filters: each value is appended to its
    /// category's running list, and the `filters` parameter becomes the
    /// JSON document of the categories touched by this call, each with its
    /// full running list.
    /// Appends every filter's value to its category's running list.
    #[verifier::rlimit(60)]
    fn apply_all(&mut self, filters: &Vec<EventFilter>)
        ensures
            final(self).containers.deep_view() == old(self).containers.deep_view() + cat_values(
                filters@,
                FilterCategory::Container,
            ),
            final(self).daemons.deep_view() == old(self).daemons.deep_view() + cat_values(
                filters@,
                FilterCategory::Daemon,
            ),
            final(self).events.deep_view() == old(self).events.deep_view() + cat_values(
                filters@,
                FilterCategory::Event,
            ),
            final(self).images.deep_view() == old(self).images.deep_view() + cat_values(
                filters@,
                FilterCategory::Image,
            ),
            final(self).labels.deep_view() == old(self).labels.deep_view() + cat_values(
                filters@,
                FilterCategory::Label,
            ),
            final(self).networks.deep_view() == old(self).networks.deep_view() + cat_values(
                filters@,
                FilterCategory::Network,
            ),
            final(self).types.deep_view() == old(self).types.deep_view() + cat_values(
                filters@,
                FilterCategory::Type,
            ),
            final(self).volumes.deep_view() == old(self).volumes.deep_view() + cat_values(
                filters@,
                FilterCategory::Volume,
            ),
            final(self).since == old(self).since,
            final(self).until == old(self).until,
            final(self).filters == old(self).filters,
    {
        let mut i: usize = 0;
        while i < filters.len()
            invariant
                0 <= i <= filters.len(),
                self.containers.deep_view() == old(self).containers.deep_view() + cat_values(
                    filters@.subrange(0, i as int),
                    FilterCategory::Container,
                ),
                self.daemons.deep_view() == old(self).daemons.deep_view() + cat_values(
                    filters@.subrange(0, i as int),
                    FilterCategory::Daemon,
                ),
                self.events.deep_view() == old(self).events.deep_view() + cat_values(
                    filters@.subrange(0, i as int),
                    FilterCategory::Event,
                ),
                self.images.deep_view() == old(self).images.deep_view() + cat_values(
                    filters@.subrange(0, i as int),
                    FilterCategory::Image,
                ),
                self.labels.deep_view() == old(self).labels.deep_view() + cat_values(
                    filters@.subrange(0, i as int),
                    FilterCategory::Label,
                ),
                self.networks.deep_view() == old(self).networks.deep_view() + cat_values(
                    filters@.subrange(0, i as int),
                    FilterCategory::Network,
                ),
                self.types.deep_view() == old(self).types.deep_view() + cat_values(
                    filters@.subrange(0, i as int),
                    FilterCategory::Type,
                ),
                self.volumes.deep_view() == old(self).volumes.deep_view() + cat_values(
                    filters@.subrange(0, i as int),
                    FilterCategory::Volume,
                ),
                self.since == old(self).since,
                self.until == old(self).until,
                self.filters == old(self).filters,
            decreases filters.len() - i,
        {
            self.apply_filter(&filters[i]);
            proof {
                lemma_cat_values_step_concat(
                    filters@,
                    i as int,
                    FilterCategory::Container,
                    old(self).containers.deep_view(),
                );
                lemma_cat_values_step_concat(
                    filters@,
                    i as int,
                    FilterCategory::Daemon,
                    old(self).daemons.deep_view(),
                );
                lemma_cat_values_step_concat(
                    filters@,
                    i as int,
                    FilterCategory::Event,
                    old(self).events.deep_view(),
                );
                lemma_cat_values_step_concat(
                    filters@,
                    i as int,
                    FilterCategory::Image,
                    old(self).images.deep_view(),
                );
                lemma_cat_values_step_concat(
                    filters@,
                    i as int,
                    FilterCategory::Label,
                    old(self).labels.deep_view(),
                );
                lemma_cat_values_step_concat(
                    filters@,
                    i as int,
                    FilterCategory::Network,
                    old(self).networks.deep_view(),
                );
                lemma_cat_values_step_concat(
                    filters@,
                    i as int,
                    FilterCategory::Type,
                    old(self).types.deep_view(),
                );
                lemma_cat_values_step_concat(
                    filters@,
                    i as int,
                    FilterCategory::Volume,
                    old(self).volumes.deep_view(),
                );
            }
            i += 1;
        }
        proof {
            assert(filters@.subrange(0, filters@.len() as int) =~= filters@);
        }
    }

    /// Records the given filters: each value is appended to its
    /// category's running list, and the `filters` parameter becomes the
    /// JSON document of the categories touched by this call, each with its
    /// full running list.
    #[verifier::rlimit(100)]
    pub fn filter(&mut self, filters: Vec<EventFilter>)
        ensures
            final(self).containers.deep_view() == old(self).containers.deep_view() + cat_values(
                filters@,
                FilterCategory::Container,
            ),
            final(self).daemons.deep_view() == old(self).daemons.deep_view() + cat_values(
                filters@,
                FilterCategory::Daemon,
            ),
            final(self).events.deep_view() == old(self).events.deep_view() + cat_values(
                filters@,
                FilterCategory::Event,
            ),
            final(self).images.deep_view() == old(self).images.deep_view() + cat_values(
                filters@,
                FilterCategory::Image,
            ),
            final(self).labels.deep_view() == old(self).labels.deep_view() + cat_values(
                filters@,
                FilterCategory::Label,
            ),
            final(self).networks.deep_view() == old(self).networks.deep_view() + cat_values(
                filters@,
                FilterCategory::Network,
            ),
            final(self).types.deep_view() == old(self).types.deep_view() + cat_values(
                filters@,
                FilterCategory::Type,
            ),
            final(self).volumes.deep_view() == old(self).volumes.deep_view() + cat_values(
                filters@,
                FilterCategory::Volume,
            ),
            final(self).since == old(self).since,
            final(self).until == old(self).until,
            final(self).filters matches Some(s) && s@ == json_filter_doc_of(
                touched_groups(
                    final(self).containers.deep_view(),
                    final(self).daemons.deep_view(),
                    final(self).events.deep_view(),
                    final(self).images.deep_view(),
                    final(self).labels.deep_view(),
                    final(self).networks.deep_view(),
                    final(self).types.deep_view(),
                    final(self).volumes.deep_view(),
                    filters@,
                ),
            ),
    {
        let n_containers = self.containers.len();
        let n_daemons = self.daemons.len();
        let n_events = self.events.len();
        let n_images = self.images.len();
        let n_labels = self.labels.len();
        let n_networks = self.networks.len();
        let n_types = self.types.len();
        let n_volumes = self.volumes.len();
        self.apply_all(&filters);
        let t_container = self.containers.len() > n_containers;
        let t_daemon = self.daemons.len() > n_daemons;
        let t_event = self.events.len() > n_events;
        let t_image = self.images.len() > n_images;
        let t_label = self.labels.len() > n_labels;
        let t_network = self.networks.len() > n_networks;
        let t_type = self.types.len() > n_types;
        let t_volume = self.volumes.len() > n_volumes;
        proof {
            assert(self.containers.deep_view().len() == self.containers@.len());
            assert(self.daemons.deep_view().len() == self.daemons@.len());
            assert(self.events.deep_view().len() == self.events@.len());
            assert(self.images.deep_view().len() == self.images@.len());
            assert(self.labels.deep_view().len() == self.labels@.len());
            assert(self.networks.deep_view().len() == self.networks@.len());
            assert(self.types.deep_view().len() == self.types@.len());
            assert(self.volumes.deep_view().len() == self.volumes@.len());
            assert(old(self).containers.deep_view().len() == old(self).containers@.len());
            assert(old(self).daemons.deep_view().len() == old(self).daemons@.len());
            assert(old(self).events.deep_view().len() == old(self).events@.len());
            assert(old(self).images.deep_view().len() == old(self).images@.len());
            assert(old(self).labels.deep_view().len() == old(self).labels@.len());
            assert(old(self).networks.deep_view().len() == old(self).networks@.len());
            assert(old(self).types.deep_view().len() == old(self).types@.len());
            assert(old(self).volumes.deep_view().len() == old(self).volumes@.len());
            assert(t_container == (cat_values(filters@, FilterCategory::Container).len() > 0));
            assert(t_daemon == (cat_values(filters@, FilterCategory::Daemon).len() > 0));
            assert(t_event == (cat_values(filters@, FilterCategory::Event).len() > 0));
            assert(t_image == (cat_values(filters@, FilterCategory::Image).len() > 0));
            assert(t_label == (cat_values(filters@, FilterCategory::Label).len() > 0));
            assert(t_network == (cat_values(filters@, FilterCategory::Network).len() > 0));
            assert(t_type == (cat_values(filters@, FilterCategory::Type).len() > 0));
            assert(t_volume == (cat_values(filters@, FilterCategory::Volume).len() > 0));
        }
        let groups = self.assemble_groups(
            t_container,
            t_daemon,
            t_event,
            t_image,
            t_label,
            t_network,
            t_type,
            t_volume,
        );
        proof {
            assert(groups.deep_view() == touched_groups(
                self.containers.deep_view(),
                self.daemons.deep_view(),
                self.events.deep_view(),
                self.images.deep_view(),
                self.labels.deep_view(),
                self.networks.deep_view(),
                self.types.deep_view(),
                self.volumes.deep_view(),
                filters@,
            ));
        }
        self.filters = Some(encode_filter_groups(&groups));
    }

    /// Builds the options from everything set so far.
    pub fn build(&self) -> (r: EventsOptions)
        ensures
            opt_str_view(r.since) == opt_str_view(self.since),
            opt_str_view(r.until) == opt_str_view(self.until),
            opt_str_view(r.filters) == opt_str_view(self.filters),
    {
        EventsOptions {
            since: match &self.since {
                Some(s) => Some(s.clone()),
                None => None,
            },
            until: match &self.until {
                Some(s) => Some(s.clone()),
                None => None,
            },
            filters: match &self.filters {
                Some(s) => Some(s.clone()),
                None => None,
            },
        }
    }
}

} // verus!
