//! The bootstrap sequence: which script tag to add, when to call the renderer,
//! and how its callback settles the outcome. The page's side (looking up
//! elements, adding tags, waiting for events) belongs to the caller, which
//! performs each returned action and feeds back what happened.

use crate::config::{configuration_from, Configuration, ConfigurationView};
use crate::fields::{ConfigError, ConfigErrorView};
use crate::options::redoc_options_wire;
use crate::value::{Json, Value};
use vstd::prelude::*;

verus! {

/// The address of the renderer's script of a version.
pub open spec fn asset_url_of(version: Seq<char>) -> Seq<char> {
    "https://cdn.jsdelivr.net/npm/redoc@"@ + version + "/bundles/redoc.standalone.min.js"@
}

/// Builds the address of the renderer's script of `version`.
pub fn asset_url(version: &str) -> (r: String)
    ensures
        r@ == asset_url_of(version@),
{
    let mut url = String::from_str("https://cdn.jsdelivr.net/npm/redoc@");
    url.append(version);
    url.append("/bundles/redoc.standalone.min.js");
    url
}

/// How far the script at one address has come.
#[derive(Debug, Clone, Copy, PartialEq, Eq, Structural)]
pub enum LoadState {
    /// Its tag is in the document and has fired no event yet.
    Loading,
    /// It has loaded.
    Loaded,
    /// It failed to load.
    Failed,
}

/// What a call has to do about the script it needs.
#[derive(Debug, Clone, Copy, PartialEq, Eq, Structural)]
pub enum ScriptRequest {
    /// No tag has this address yet: add one, which is now recorded as loading.
    Append,
    /// A tag is loading: wait for its events.
    Await,
    /// The script has loaded.
    Ready,
    /// The script failed to load.
    Unavailable,
}

/// The script tags of a document, one per address, with how far each has come.
/// Shared by every initialisation call on the document.
pub struct ScriptRegistry {
    scripts: Vec<(String, LoadState)>,
}

/// A tag has address `url`.
pub open spec fn has_tag(scripts: Seq<(Seq<char>, LoadState)>, url: Seq<char>) -> bool {
    exists|i: int| 0 <= i < scripts.len() && #[trigger] scripts[i].0 == url
}

/// The state of the script at `url`, if a tag has that address.
pub open spec fn state_in(scripts: Seq<(Seq<char>, LoadState)>, url: Seq<char>) -> Option<
    LoadState,
> {
    if has_tag(scripts, url) {
        Some(scripts[choose|i: int| 0 <= i < scripts.len() && #[trigger] scripts[i].0 == url].1)
    } else {
        None
    }
}

/// No two tags share an address.
pub open spec fn one_tag_per_url(scripts: Seq<(Seq<char>, LoadState)>) -> bool {
    forall|i: int, j: int|
        0 <= i < j < scripts.len() ==> #[trigger] scripts[i].0 != #[trigger] scripts[j].0
}

proof fn lemma_state_at(scripts: Seq<(Seq<char>, LoadState)>, i: int)
    requires
        one_tag_per_url(scripts),
        0 <= i < scripts.len(),
    ensures
        state_in(scripts, scripts[i].0) == Some(scripts[i].1),
{
    let url = scripts[i].0;
    assert(has_tag(scripts, url));
    let k = choose|k: int| 0 <= k < scripts.len() && #[trigger] scripts[k].0 == url;
    if k != i {
        if k < i {
            assert(scripts[k].0 != scripts[i].0);
        } else {
            assert(scripts[i].0 != scripts[k].0);
        }
    }
}

impl View for ScriptRegistry {
    type V = Seq<(Seq<char>, LoadState)>;

    closed spec fn view(&self) -> Seq<(Seq<char>, LoadState)> {
        Seq::new(self.scripts@.len(), |i: int| (self.scripts@[i].0@, self.scripts@[i].1))
    }
}

impl ScriptRegistry {
    pub open spec fn wf(&self) -> bool {
        one_tag_per_url(self@)
    }

    pub fn new() -> (r: ScriptRegistry)
        ensures
            r@ == Seq::<(Seq<char>, LoadState)>::empty(),
            r.wf(),
    {
        let r = ScriptRegistry { scripts: Vec::new() };
        assert(r@ =~= Seq::<(Seq<char>, LoadState)>::empty());
        r
    }

    /// The number of tags.
    pub fn len(&self) -> (r: usize)
        ensures
            r == self@.len(),
    {
        self.scripts.len()
    }

    fn position(&self, url: &str) -> (r: Option<usize>)
        requires
            self.wf(),
        ensures
            match r {
                Some(i) => i < self@.len() && self@[i as int].0 == url@ && state_in(self@, url@)
                    == Some(self@[i as int].1),
                None => !has_tag(self@, url@) && state_in(self@, url@) is None,
            },
    {
        let wanted = String::from_str(url);
        let mut i: usize = 0;
        while i < self.scripts.len()
            invariant
                0 <= i <= self@.len(),
                self.wf(),
                self@.len() == self.scripts@.len(),
                wanted@ == url@,
                forall|j: int| 0 <= j < i ==> self@[j].0 != url@,
            decreases self@.len() - i,
        {
            if self.scripts[i].0 == wanted {
                proof {
                    lemma_state_at(self@, i as int);
                }
                return Some(i);
            }
            i += 1;
        }
        None
    }

    /// The state of the script at `url`, if a tag has that address.
    pub fn state(&self, url: &str) -> (r: Option<LoadState>)
        requires
            self.wf(),
        ensures
            r == state_in(self@, url@),
    {
        match self.position(url) {
            Some(i) => Some(self.scripts[i].1),
            None => None,
        }
    }

    fn add(&mut self, url: &str, state: LoadState)
        requires
            old(self).wf(),
            !has_tag(old(self)@, url@),
        ensures
            final(self).wf(),
            final(self)@ == old(self)@.push((url@, state)),
    {
        let ghost before = self@;
        self.scripts.push((String::from_str(url), state));
        assert(self@ =~= before.push((url@, state)));
        assert forall|i: int, j: int| 0 <= i < j < self@.len() implies #[trigger] self@[i].0
            != #[trigger] self@[j].0 by {
            if j == before.len() {
                assert(before[i].0 != url@);
            }
        }
    }

    /// Records a tag that the document held before any call added one; it is
    /// taken as loaded.
    pub fn adopt(&mut self, url: &str)
        requires
            old(self).wf(),
        ensures
            final(self).wf(),
            !has_tag(old(self)@, url@) ==> final(self)@ == old(self)@.push(
                (url@, LoadState::Loaded),
            ),
            has_tag(old(self)@, url@) ==> final(self)@ == old(self)@,
    {
        if self.position(url).is_none() {
            self.add(url, LoadState::Loaded);
        }
    }

    /// Decides what a call that needs the script at `url` has to do. A tag is
    /// added, and recorded as loading, only where no tag has that address.
    pub fn request(&mut self, url: &str) -> (r: ScriptRequest)
        requires
            old(self).wf(),
        ensures
            final(self).wf(),
            request_outcome(old(self)@, url@, final(self)@, r),
    {
        match self.position(url) {
            None => {
                self.add(url, LoadState::Loading);
                ScriptRequest::Append
            },
            Some(i) => match self.scripts[i].1 {
                LoadState::Loading => ScriptRequest::Await,
                LoadState::Loaded => ScriptRequest::Ready,
                LoadState::Failed => ScriptRequest::Unavailable,
            },
        }
    }

    /// Records the event that the loading tag at `url` fired. Nothing else
    /// changes: a tag that is not loading keeps its state.
    pub fn settle(&mut self, url: &str, loaded: bool)
        requires
            old(self).wf(),
        ensures
            final(self).wf(),
            final(self)@ == settled(old(self)@, url@, loaded),
    {
        match self.position(url) {
            Some(i) => {
                if self.scripts[i].1 == LoadState::Loading {
                    let ghost before = self@;
                    let state = if loaded {
                        LoadState::Loaded
                    } else {
                        LoadState::Failed
                    };
                    self.scripts.set(i, (String::from_str(url), state));
                    assert(self@ =~= before.update(i as int, (url@, state)));
                    assert forall|a: int, b: int| 0 <= a < b < self@.len() implies #[trigger] self@[a].0
                        != #[trigger] self@[b].0 by {
                        assert(before[a].0 != before[b].0);
                    }
                    proof {
                        assert(has_tag(before, url@));
                        let k = choose|k: int|
                            0 <= k < before.len() && #[trigger] before[k].0 == url@;
                        if k != i {
                            if k < i {
                                assert(before[k].0 != before[i as int].0);
                            } else {
                                assert(before[i as int].0 != before[k].0);
                            }
                        }
                    }
                }
            },
            None => {},
        }
    }
}

/// What `request` does: a tag is added, as loading, exactly where none has the
/// address; otherwise the tags stay as they are and the answer follows the
/// state of the one that has it.
pub open spec fn request_outcome(
    before: Seq<(Seq<char>, LoadState)>,
    url: Seq<char>,
    after: Seq<(Seq<char>, LoadState)>,
    r: ScriptRequest,
) -> bool {
    match state_in(before, url) {
        None => r == ScriptRequest::Append && after == before.push((url, LoadState::Loading)),
        Some(LoadState::Loading) => r == ScriptRequest::Await && after == before,
        Some(LoadState::Loaded) => r == ScriptRequest::Ready && after == before,
        Some(LoadState::Failed) => r == ScriptRequest::Unavailable && after == before,
    }
}

/// The tags after the tag at `url` fired its event: a loading one becomes
/// loaded or failed; any other stays as it is.
pub open spec fn settled(scripts: Seq<(Seq<char>, LoadState)>, url: Seq<char>, loaded: bool) -> Seq<
    (Seq<char>, LoadState),
> {
    if state_in(scripts, url) == Some(LoadState::Loading) {
        let i = choose|i: int| 0 <= i < scripts.len() && #[trigger] scripts[i].0 == url;
        scripts.update(
            i,
            (
                url,
                if loaded {
                    LoadState::Loaded
                } else {
                    LoadState::Failed
                },
            ),
        )
    } else {
        scripts
    }
}

/// Why an initialisation call failed.
#[derive(Debug, Clone, PartialEq)]
pub enum BootstrapError {
    /// The configuration payload has a field of the wrong kind.
    Config(ConfigError),
    /// Neither a supplied element nor the configured id gave a container.
    ContainerNotFound,
    /// The renderer's script failed to load.
    AssetLoadError,
    /// The renderer reported a failure through its callback; its message,
    /// unchanged.
    RendererInitError(String),
    /// No window or document is available.
    EnvironmentError(String),
}

/// Where one initialisation call stands.
#[derive(Debug, Clone, PartialEq)]
pub enum Phase {
    Idle,
    ResolvingContainer,
    LoadingAsset,
    Initializing,
    Ready,
    Failed(BootstrapError),
}

/// What happened on the page since the last action.
#[derive(Debug)]
pub enum Event {
    /// The call begins; the caller may have supplied the container itself.
    Start { element_supplied: bool },
    /// The element with the configured id was looked up.
    ContainerLookup { found: bool },
    /// The renderer's script has loaded.
    AssetLoaded,
    /// The renderer's script failed to load.
    AssetFailed,
    /// The renderer's completion callback ran, with an error or without.
    InitCompleted { error: Option<String> },
}

/// What the caller has to do next.
#[derive(Debug)]
pub enum Action {
    /// Look up the element with this id.
    LookupContainer { id: String },
    /// Add a script tag with this address, with its load and error handlers
    /// set before the tag is attached, and wait for one of them.
    AppendScript { url: String },
    /// Wait for the events of the tag that another call added.
    AwaitScript { url: String },
    /// Call the renderer's init entry point with these options.
    CallInit { options: Value },
    /// Report success.
    Resolve,
    /// Report this failure.
    Reject(BootstrapError),
    /// Nothing to do.
    Ignore,
}

/// One initialisation call: its configuration, the address of the script it
/// needs, and where it stands.
pub struct Bootstrap {
    pub config: Configuration,
    pub url: String,
    pub phase: Phase,
}

/// The action calls the renderer with its own options alone.
pub open spec fn calls_init(b: Bootstrap, r: Action) -> bool {
    r matches Action::CallInit { options } && options@ == Json::Object(
        redoc_options_wire(b.config.renderer@),
    )
}

/// The step once the container is known: the script is asked for, and a tag
/// is added only where no tag has its address.
pub open spec fn fetches_script(
    b: Bootstrap,
    s: Seq<(Seq<char>, LoadState)>,
    b2: Bootstrap,
    s2: Seq<(Seq<char>, LoadState)>,
    r: Action,
) -> bool {
    match state_in(s, b.url@) {
        None => b2.phase == Phase::LoadingAsset && s2 == s.push((b.url@, LoadState::Loading))
            && r == Action::AppendScript { url: b.url },
        Some(LoadState::Loading) => b2.phase == Phase::LoadingAsset && s2 == s && r
            == Action::AwaitScript { url: b.url },
        Some(LoadState::Loaded) => b2.phase == Phase::Initializing && s2 == s && calls_init(b, r),
        Some(LoadState::Failed) => b2.phase == Phase::Failed(BootstrapError::AssetLoadError) && s2
            == s && r == Action::Reject(BootstrapError::AssetLoadError),
    }
}

/// One step of a call: from call `b` and tags `s`, the event leads to call
/// `b2`, tags `s2` and action `r`.
pub open spec fn transition(
    b: Bootstrap,
    s: Seq<(Seq<char>, LoadState)>,
    event: Event,
    b2: Bootstrap,
    s2: Seq<(Seq<char>, LoadState)>,
    r: Action,
) -> bool {
    match b.phase {
        Phase::Idle => match event {
            Event::Start { element_supplied } => if element_supplied {
                fetches_script(b, s, b2, s2, r)
            } else {
                b2.phase == Phase::ResolvingContainer && s2 == s && r == Action::LookupContainer {
                    id: b.config.bootstrap.container_id,
                }
            },
            _ => b2 == b && s2 == s && r == Action::Ignore,
        },
        Phase::ResolvingContainer => match event {
            Event::ContainerLookup { found } => if found {
                fetches_script(b, s, b2, s2, r)
            } else {
                b2.phase == Phase::Failed(BootstrapError::ContainerNotFound) && s2 == s && r
                    == Action::Reject(BootstrapError::ContainerNotFound)
            },
            _ => b2 == b && s2 == s && r == Action::Ignore,
        },
        Phase::LoadingAsset => match event {
            Event::AssetLoaded => b2.phase == Phase::Initializing && s2 == s && calls_init(b, r),
            Event::AssetFailed => b2.phase == Phase::Failed(BootstrapError::AssetLoadError) && s2
                == s && r == Action::Reject(BootstrapError::AssetLoadError),
            _ => b2 == b && s2 == s && r == Action::Ignore,
        },
        Phase::Initializing => match event {
            Event::InitCompleted { error } => s2 == s && match error {
                None => b2.phase == Phase::Ready && r == Action::Resolve,
                Some(m) => b2.phase == Phase::Failed(BootstrapError::RendererInitError(m)) && r
                    == Action::Reject(BootstrapError::RendererInitError(m)),
            },
            _ => b2 == b && s2 == s && r == Action::Ignore,
        },
        _ => b2 == b && s2 == s && r == Action::Ignore,
    }
}

impl Bootstrap {
    /// A call that has not started, for a configuration that has been read.
    pub fn new(config: Configuration) -> (r: Bootstrap)
        ensures
            r.config == config,
            r.url@ == asset_url_of(config.bootstrap.redoc_version@),
            r.phase == Phase::Idle,
    {
        let url = asset_url(config.bootstrap.redoc_version.as_str());
        Bootstrap { config, url, phase: Phase::Idle }
    }

    /// Reads the payload and, only where it reads without error, makes a call
    /// that has not started. Nothing on the page is touched here: a payload
    /// with a field of the wrong kind fails before any lookup, tag or renderer
    /// call, and no part of it is used.
    pub fn start(payload: &Value) -> (r: Result<Bootstrap, BootstrapError>)
        ensures
            r is Ok <==> configuration_from(payload@) is Ok,
            match r {
                Ok(b) => {
                    &&& configuration_from(payload@) == Ok::<
                        ConfigurationView,
                        ConfigErrorView,
                    >(b.config@)
                    &&& b.url@ == asset_url_of(b.config.bootstrap.redoc_version@)
                    &&& b.phase == Phase::Idle
                },
                Err(e) => e matches BootstrapError::Config(c) && configuration_from(payload@)
                    == Err::<ConfigurationView, ConfigErrorView>(c@),
            },
    {
        match Configuration::parse(payload) {
            Ok(config) => Ok(Bootstrap::new(config)),
            Err(e) => Err(BootstrapError::Config(e)),
        }
    }

    fn fetch_script(&mut self, scripts: &mut ScriptRegistry) -> (r: Action)
        requires
            old(scripts).wf(),
        ensures
            final(scripts).wf(),
            final(self).config == old(self).config,
            final(self).url == old(self).url,
            fetches_script(*old(self), old(scripts)@, *final(self), final(scripts)@, r),
    {
        match scripts.request(self.url.as_str()) {
            ScriptRequest::Append => {
                self.phase = Phase::LoadingAsset;
                Action::AppendScript { url: self.url.clone() }
            },
            ScriptRequest::Await => {
                self.phase = Phase::LoadingAsset;
                Action::AwaitScript { url: self.url.clone() }
            },
            ScriptRequest::Ready => {
                self.phase = Phase::Initializing;
                Action::CallInit { options: self.config.renderer_payload() }
            },
            ScriptRequest::Unavailable => {
                self.phase = Phase::Failed(BootstrapError::AssetLoadError);
                Action::Reject(BootstrapError::AssetLoadError)
            },
        }
    }

    /// Takes the call one step on. Once the call is ready or has failed, every
    /// event is ignored: the first outcome stands.
    pub fn step(&mut self, scripts: &mut ScriptRegistry, event: Event) -> (r: Action)
        requires
            old(scripts).wf(),
        ensures
            final(scripts).wf(),
            final(self).config == old(self).config,
            final(self).url == old(self).url,
            transition(*old(self), old(scripts)@, event, *final(self), final(scripts)@, r),
    {
        match self.phase {
            Phase::Idle => match event {
                Event::Start { element_supplied } => {
                    if element_supplied {
                        self.fetch_script(scripts)
                    } else {
                        self.phase = Phase::ResolvingContainer;
                        Action::LookupContainer { id: self.config.bootstrap.container_id.clone() }
                    }
                },
                _ => Action::Ignore,
            },
            Phase::ResolvingContainer => match event {
                Event::ContainerLookup { found } => {
                    if found {
                        self.fetch_script(scripts)
                    } else {
                        self.phase = Phase::Failed(BootstrapError::ContainerNotFound);
                        Action::Reject(BootstrapError::ContainerNotFound)
                    }
                },
                _ => Action::Ignore,
            },
            Phase::LoadingAsset => match event {
                Event::AssetLoaded => {
                    self.phase = Phase::Initializing;
                    Action::CallInit { options: self.config.renderer_payload() }
                },
                Event::AssetFailed => {
                    self.phase = Phase::Failed(BootstrapError::AssetLoadError);
                    Action::Reject(BootstrapError::AssetLoadError)
                },
                _ => Action::Ignore,
            },
            Phase::Initializing => match event {
                Event::InitCompleted { error } => match error {
                    None => {
                        self.phase = Phase::Ready;
                        Action::Resolve
                    },
                    Some(m) => {
                        self.phase = Phase::Failed(BootstrapError::RendererInitError(m.clone()));
                        Action::Reject(BootstrapError::RendererInitError(m))
                    },
                },
                _ => Action::Ignore,
            },
            _ => Action::Ignore,
        }
    }
}

/// Once a call is ready or has failed, no event changes it, touches the tags
/// or asks for anything: the first outcome stands.
pub proof fn lemma_outcome_is_final(
    b: Bootstrap,
    s: Seq<(Seq<char>, LoadState)>,
    event: Event,
    b2: Bootstrap,
    s2: Seq<(Seq<char>, LoadState)>,
    r: Action,
)
    requires
        transition(b, s, event, b2, s2, r),
        b.phase is Ready || b.phase is Failed,
    ensures
        b2 == b,
        s2 == s,
        r == Action::Ignore,
{
}

/// The renderer is called only once its script has loaded: either the event
/// says so, or the tags record it as loaded.
pub proof fn lemma_init_after_load(
    b: Bootstrap,
    s: Seq<(Seq<char>, LoadState)>,
    event: Event,
    b2: Bootstrap,
    s2: Seq<(Seq<char>, LoadState)>,
    r: Action,
)
    requires
        transition(b, s, event, b2, s2, r),
        r is CallInit,
    ensures
        (b.phase is LoadingAsset && event is AssetLoaded) || state_in(s, b.url@) == Some(
            LoadState::Loaded,
        ),
{
}

/// A step adds at most one tag: one with the call's own address, and only
/// where no tag has it yet. Where a tag has it, the tags stay as they are.
pub proof fn lemma_one_tag_per_url(
    b: Bootstrap,
    s: Seq<(Seq<char>, LoadState)>,
    event: Event,
    b2: Bootstrap,
    s2: Seq<(Seq<char>, LoadState)>,
    r: Action,
)
    requires
        transition(b, s, event, b2, s2, r),
    ensures
        s2 == s || (!has_tag(s, b.url@) && s2 == s.push((b.url@, LoadState::Loading))),
        has_tag(s, b.url@) ==> s2 == s,
{
}

/// Once the container is known the script is asked for: afterwards a tag has
/// the call's address, added by this step exactly where none had it before.
pub proof fn lemma_container_found_requests_script(
    b: Bootstrap,
    s: Seq<(Seq<char>, LoadState)>,
    event: Event,
    b2: Bootstrap,
    s2: Seq<(Seq<char>, LoadState)>,
    r: Action,
)
    requires
        transition(b, s, event, b2, s2, r),
        (b.phase is Idle && event == Event::Start { element_supplied: true }) || (
        b.phase is ResolvingContainer && event == Event::ContainerLookup { found: true }),
    ensures
        has_tag(s2, b.url@),
        s2.len() == s.len() + if has_tag(s, b.url@) {
            0int
        } else {
            1int
        },
{
    if !has_tag(s, b.url@) {
        assert(s2[s.len() as int].0 == b.url@);
    } else {
        let k = choose|k: int| 0 <= k < s.len() && #[trigger] s[k].0 == b.url@;
        assert(s2[k].0 == b.url@);
    }
}

} // verus!
