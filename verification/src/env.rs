//! The manager itself: the table of clients, the startup scan, the dispatch of events and
//! the two drags, as one state machine.
//!
//! The machine is driven by [`Env::step`]. Each step takes the reply to the query that is
//! pending and returns the requests to carry out next, of which the last is the new pending
//! query. A reply that does not answer the pending query is ignored.

use vstd::prelude::*;
use crate::client::Client;
use crate::event::Event;
use crate::geometry::{title_height, title_height_spec, FontMetrics, Geometry, Window};
use crate::mode::Mode;
use crate::protocol::{Reply, Request};
use crate::registry::{
    adopt_spec, client_of, find, find_either, frame_of, frames, lemma_adopt_wf,
    lemma_unmanage_wf, manages, registry_wf, unmanage_spec, Registry, Role,
};

verus! {

/// The state of the manager, as its contracts see it.
pub struct EnvState {
    /// The metrics of the title font, if the server has one.
    pub font: Option<FontMetrics>,
    /// The managed clients, in the order of their adoption.
    pub clients: Seq<Client>,
    /// The windows found at startup that the scan has yet to look at.
    pub unscanned: Seq<Window>,
    /// The operation in progress.
    pub mode: Mode,
}

impl EnvState {
    /// What every state of the manager satisfies: the table is well formed, a client held
    /// by the operation in progress is well formed, a window that is being adopted is not
    /// in the table yet, and windows are left to scan only while the scan is under way.
    pub open spec fn wf(self) -> bool {
        &&& registry_wf(self.clients)
        &&& (self.mode.client() matches Some(client) ==> client.wf())
        &&& (self.mode.adopting() matches Some(window) ==> !manages(self.clients, window))
        &&& (self.unscanned.len() > 0 ==> self.mode.scanning())
    }

    /// The state of a manager that has just been created.
    pub open spec fn initial(font: Option<FontMetrics>) -> EnvState {
        EnvState { font, clients: Seq::empty(), unscanned: Seq::empty(), mode: Mode::Running }
    }

    /// The height of the title bar that new clients get.
    pub open spec fn title_height(self) -> int {
        title_height_spec(self.font)
    }

    /// The query whose answer the manager waits for.
    pub open spec fn pending(self) -> Request {
        self.mode.pending_spec(self.font)
    }

    /// An operation has ended with the commands `done`: the startup scan goes on with its
    /// next window, or, with none left, the manager waits for the next event.
    pub open spec fn resume(self, done: Seq<Request>) -> (EnvState, Seq<Request>) {
        if self.unscanned.len() > 0 {
            let window = self.unscanned[0];
            (
                EnvState {
                    unscanned: self.unscanned.drop_first(),
                    mode: Mode::ScanAttributes { window },
                    ..self
                },
                done.push(Request::GetAttributes { window }),
            )
        } else {
            (EnvState { mode: Mode::Running, ..self }, done.push(Request::NextEvent))
        }
    }

    /// An operation has either started something to wait for, or ended.
    pub open spec fn proceed(self, started: (Option<Mode>, Seq<Request>)) -> (
        EnvState,
        Seq<Request>,
    ) {
        match started.0 {
            Some(mode) => (EnvState { mode, ..self }, started.1),
            None => self.resume(started.1),
        }
    }

    /// The startup scan begins, if nothing else is in progress.
    pub open spec fn scan(self) -> (EnvState, Seq<Request>) {
        if self.mode == Mode::Running {
            (EnvState { mode: Mode::AwaitTree, ..self }, seq![Request::QueryTree])
        } else {
            (self, Seq::empty())
        }
    }

    /// The adoption of `window` begins, unless it is managed already.
    pub open spec fn manage(self, window: Window, ignore_unmap: bool) -> (
        EnvState,
        Seq<Request>,
    ) {
        if manages(self.clients, window) {
            self.resume(Seq::empty())
        } else {
            (
                EnvState { mode: Mode::ManageGeometry { window, ignore_unmap }, ..self },
                seq![Request::GetGeometry { window }],
            )
        }
    }

    /// `window` was unmapped or destroyed.
    pub open spec fn unmanage(self, window: Window) -> (EnvState, Seq<Request>) {
        let (clients, frame) = unmanage_spec(self.clients, window);
        let next = EnvState { clients, ..self };
        match frame {
            Some(frame) => next.resume(seq![Request::DestroyWindow { window: frame }]),
            None => next.resume(Seq::empty()),
        }
    }

    /// The client, if there is one, is to follow its window's geometry.
    pub open spec fn configure(self, client: Option<Client>) -> (EnvState, Seq<Request>) {
        match client {
            Some(client) => (
                EnvState { mode: Mode::ConfigureGeometry { client }, ..self },
                seq![Request::GetGeometry { window: client.window }],
            ),
            None => self.resume(Seq::empty()),
        }
    }

    /// The title of the client, if there is one, is to be painted.
    pub open spec fn redraw(self, client: Option<Client>) -> (EnvState, Seq<Request>) {
        match client {
            Some(client) => (
                EnvState { mode: Mode::RedrawName { client }, ..self },
                seq![Request::FetchName { window: client.window }],
            ),
            None => self.resume(Seq::empty()),
        }
    }

    /// A button was pressed on the client, if there is one.
    pub open spec fn button_press(self, client: Option<Client>, button: u32) -> (
        EnvState,
        Seq<Request>,
    ) {
        match client {
            Some(client) => self.proceed(client.button_press_spec(button)),
            None => self.resume(Seq::empty()),
        }
    }

    /// What an event leads to while nothing is in progress. An event for a window that the
    /// table does not know, and an event of a kind that has no meaning here, lead to
    /// nothing but the wait for the next event.
    pub open spec fn dispatch(self, event: Event) -> (EnvState, Seq<Request>) {
        match event {
            Event::ButtonPress { window, button } => self.button_press(
                find_either(self.clients, window),
                button,
            ),
            Event::Expose { window, count } => if count == 0 {
                self.redraw(find(self.clients, Role::Frame, window))
            } else {
                self.resume(Seq::empty())
            },
            Event::MapRequest { window } => self.manage(window, false),
            Event::Unmap { window } => self.unmanage(window),
            Event::Destroy { window } => self.unmanage(window),
            Event::ConfigureRequest { window } => self.configure(
                find(self.clients, Role::Window, window),
            ),
            Event::PropertyNotify { window } => self.redraw(
                find(self.clients, Role::Window, window),
            ),
            _ => self.resume(Seq::empty()),
        }
    }

    /// What an event leads to during a move: motion moves the frame, the release moves it
    /// once more and ends the move, anything else is dropped.
    pub open spec fn drag_move(self, client: Client, off_x: i16, off_y: i16, event: Event) -> (
        EnvState,
        Seq<Request>,
    ) {
        match event {
            Event::MotionNotify { x_root, y_root } => (
                self,
                seq![client.drag_move_spec(off_x, off_y, x_root, y_root), Request::NextEvent],
            ),
            Event::ButtonRelease { x_root, y_root } => self.resume(
                seq![client.drag_move_spec(off_x, off_y, x_root, y_root)],
            ),
            _ => (self, seq![Request::NextEvent]),
        }
    }

    /// What an event leads to during a resize: motion resizes frame and client, the release
    /// resizes them once more and ends the resize, anything else is dropped.
    pub open spec fn drag_resize(
        self,
        client: Client,
        origin_x: i16,
        origin_y: i16,
        event: Event,
    ) -> (EnvState, Seq<Request>) {
        match event {
            Event::MotionNotify { x_root, y_root } => (
                self,
                client.drag_resize_spec(origin_x, origin_y, x_root, y_root).push(
                    Request::NextEvent,
                ),
            ),
            Event::ButtonRelease { x_root, y_root } => self.resume(
                client.drag_resize_spec(origin_x, origin_y, x_root, y_root),
            ),
            _ => (self, seq![Request::NextEvent]),
        }
    }

    /// The frame of the window being adopted has been created.
    pub open spec fn adopt(self, window: Window, ignore_unmap: bool, geometry: Geometry, frame: Window) -> (
        EnvState,
        Seq<Request>,
    ) {
        let client = Client {
            window,
            frame,
            ignore_unmap,
            title_height: self.title_height() as u32,
        };
        EnvState { clients: adopt_spec(self.clients, client), ..self }.resume(
            client.adoption_spec(geometry),
        )
    }

    /// One step of the manager: the state after `reply`, and the requests to carry out.
    ///
    /// A reply that does not answer the pending query changes nothing and asks for nothing.
    pub open spec fn step(self, reply: Reply) -> (EnvState, Seq<Request>) {
        match (self.mode, reply) {
            (Mode::Running, Reply::Event(event)) => self.dispatch(event),
            (Mode::AwaitTree, Reply::Tree(windows)) => EnvState { unscanned: windows@, ..self }.resume(
                Seq::empty(),
            ),
            (Mode::ScanAttributes { window }, Reply::Attributes { override_redirect }) => {
                if override_redirect {
                    self.resume(Seq::empty())
                } else {
                    self.manage(window, true)
                }
            },
            (Mode::ManageGeometry { window, ignore_unmap }, Reply::Geometry(geometry)) => (
                EnvState { mode: Mode::ManageFrame { window, ignore_unmap, geometry }, ..self },
                seq![Client::frame_request(geometry, self.title_height())],
            ),
            (Mode::ManageFrame { window, ignore_unmap, geometry }, Reply::Window(frame)) => {
                self.adopt(window, ignore_unmap, geometry, frame)
            },
            (Mode::ConfigureGeometry { client }, Reply::Geometry(geometry)) => self.resume(
                client.configure_spec(geometry),
            ),
            (Mode::RedrawName { client }, Reply::Name(name)) => self.resume(
                client.redraw_spec(name, self.font),
            ),
            (Mode::MoveGrab { client }, Reply::Pointer(pointer)) => (
                EnvState {
                    mode: Mode::Moving { client, off_x: pointer.win_x, off_y: pointer.win_y },
                    ..self
                },
                seq![Request::NextEvent],
            ),
            (Mode::Moving { client, off_x, off_y }, Reply::Event(event)) => self.drag_move(
                client,
                off_x,
                off_y,
                event,
            ),
            (Mode::ResizeGrab { client }, Reply::Geometry(geometry)) => (
                EnvState {
                    mode: Mode::Resizing { client, origin_x: geometry.x, origin_y: geometry.y },
                    ..self
                },
                seq![client.warp_spec(geometry), Request::NextEvent],
            ),
            (Mode::Resizing { client, origin_x, origin_y }, Reply::Event(event)) => {
                self.drag_resize(client, origin_x, origin_y, event)
            },
            _ => (self, Seq::empty()),
        }
    }

    /// The state after a whole conversation, and all the requests made in its course.
    pub open spec fn run(self, replies: Seq<Reply>) -> (EnvState, Seq<Request>)
        decreases replies.len(),
    {
        if replies.len() == 0 {
            (self, Seq::empty())
        } else {
            let before = self.run(replies.drop_last());
            let last = before.0.step(replies.last());
            (last.0, before.1 + last.1)
        }
    }
}

/// The window manager: the table of clients, what is left of the startup scan, and the
/// operation in progress.
pub struct Env {
    font: Option<FontMetrics>,
    registry: Registry,
    scan: Vec<Window>,
    scanned: usize,
    mode: Mode,
}

impl View for Env {
    type V = EnvState;

    closed spec fn view(&self) -> EnvState {
        EnvState {
            font: self.font,
            clients: self.registry@,
            unscanned: self.scan@.skip(self.scanned as int),
            mode: self.mode,
        }
    }
}

impl Env {
    /// Every manager is in a well-formed state.
    #[verifier::type_invariant]
    spec fn inv(self) -> bool {
        &&& self.scanned <= self.scan@.len()
        &&& self@.wf()
    }

    /// A manager with no clients, which waits for the next event. `font` holds the metrics
    /// of the font that titles are drawn with, if the server has one.
    pub fn new(font: Option<FontMetrics>) -> (env: Env)
        ensures
            env@ == EnvState::initial(font),
            env@.wf(),
    {
        let env = Env {
            font,
            registry: Registry::new(),
            scan: Vec::new(),
            scanned: 0,
            mode: Mode::Running,
        };
        assert(env@.unscanned =~= Seq::<Window>::empty());
        env
    }

    /// The operation in progress.
    pub fn mode(&self) -> (mode: Mode)
        ensures
            mode == self@.mode,
    {
        self.mode
    }

    /// The metrics of the title font.
    pub fn font(&self) -> (font: Option<FontMetrics>)
        ensures
            font == self@.font,
    {
        self.font
    }

    /// The table of clients.
    pub fn clients(&self) -> (registry: &Registry)
        ensures
            registry@ == self@.clients,
    {
        &self.registry
    }

    /// The height of the title bar that new clients get.
    pub fn title_height(&self) -> (height: u32)
        ensures
            height == self@.title_height(),
    {
        title_height(self.font)
    }

    /// The query whose answer the manager waits for.
    pub fn pending(&self) -> (request: Request)
        ensures
            request == self@.pending(),
            request.is_query(),
    {
        self.mode.pending(self.font)
    }

    /// The client whose own window is `window`.
    pub fn find_by_window(&self, window: Window) -> (client: Option<Client>)
        ensures
            client == find(self@.clients, Role::Window, window),
            client is Some <==> manages(self@.clients, window),
    {
        self.registry.find_by_window(window)
    }

    /// The client whose frame is `frame`.
    pub fn find_by_frame(&self, frame: Window) -> (client: Option<Client>)
        ensures
            client == find(self@.clients, Role::Frame, frame),
            client is Some <==> frames(self@.clients, frame),
    {
        self.registry.find_by_frame(frame)
    }

    /// The client that an event on `id` concerns: the one framed by `id`, or else the one
    /// whose own window `id` is.
    pub fn find_client(&self, id: Window) -> (client: Option<Client>)
        ensures
            client == find_either(self@.clients, id),
    {
        self.registry.find_client(id)
    }

    /// The frame around `window`. It is there exactly if `window` is managed.
    pub fn frame_of(&self, window: Window) -> (frame: Option<Window>)
        ensures
            frame == frame_of(self@.clients, window),
            frame is Some <==> manages(self@.clients, window),
    {
        self.registry.frame_of(window)
    }

    /// The window inside `frame`. It is there exactly if `frame` frames a client.
    pub fn client_of(&self, frame: Window) -> (window: Option<Window>)
        ensures
            window == client_of(self@.clients, frame),
            window is Some <==> frames(self@.clients, frame),
    {
        self.registry.client_of(frame)
    }

    /// Ends an operation on a manager taken apart: the scan goes on, or the next event is
    /// awaited.
    fn resume_with(
        font: Option<FontMetrics>,
        registry: Registry,
        scan: Vec<Window>,
        scanned: usize,
        done: Vec<Request>,
    ) -> (next: (Env, Vec<Request>))
        requires
            scanned <= scan@.len(),
        ensures
            (next.0@, next.1@) == (EnvState {
                font,
                clients: registry@,
                unscanned: scan@.skip(scanned as int),
                mode: Mode::Running,
            }).resume(done@),
    {
        proof {
            use_type_invariant(&registry);
        }
        let mut requests = done;
        if scanned < scan.len() {
            let window: Window = scan[scanned];
            requests.push(Request::GetAttributes { window });
            let ghost unscanned = scan@.skip(scanned as int);
            let env = Env {
                font,
                registry,
                scan,
                scanned: scanned + 1,
                mode: Mode::ScanAttributes { window },
            };
            assert(env@.unscanned =~= unscanned.drop_first());
            (env, requests)
        } else {
            requests.push(Request::NextEvent);
            (Env { font, registry, scan, scanned, mode: Mode::Running }, requests)
        }
    }

    /// Ends an operation: the scan goes on, or the next event is awaited.
    fn resume(self, done: Vec<Request>) -> (next: (Env, Vec<Request>))
        ensures
            (next.0@, next.1@) == self@.resume(done@),
    {
        proof {
            use_type_invariant(&self);
        }
        let Env { font, registry, scan, scanned, mode } = self;
        Env::resume_with(font, registry, scan, scanned, done)
    }

    /// Goes on after an operation that has started something to wait for, or has ended.
    fn proceed(self, mode: Option<Mode>, requests: Vec<Request>) -> (next: (Env, Vec<Request>))
        requires
            self@.mode == Mode::Running,
            mode matches Some(m) ==> (m.client() matches Some(c) ==> c.wf()) && m.adopting()
                is None,
        ensures
            (next.0@, next.1@) == self@.proceed((mode, requests@)),
    {
        proof {
            use_type_invariant(&self);
        }
        match mode {
            Some(mode) => (Env { mode, ..self }, requests),
            None => self.resume(requests),
        }
    }

    /// Begins the adoption of `window`, unless it is managed already.
    fn manage(self, window: Window, ignore_unmap: bool) -> (next: (Env, Vec<Request>))
        ensures
            (next.0@, next.1@) == self@.manage(window, ignore_unmap),
    {
        proof {
            use_type_invariant(&self);
        }
        if self.registry.find_by_window(window).is_some() {
            self.resume(Vec::new())
        } else {
            let mut requests: Vec<Request> = Vec::new();
            requests.push(Request::GetGeometry { window });
            assert(requests@ =~= seq![Request::GetGeometry { window }]);
            (Env { mode: Mode::ManageGeometry { window, ignore_unmap }, ..self }, requests)
        }
    }

    /// Takes note that `window` was unmapped or destroyed.
    fn unmanage(self, window: Window) -> (next: (Env, Vec<Request>))
        requires
            self@.mode == Mode::Running,
        ensures
            (next.0@, next.1@) == self@.unmanage(window),
    {
        proof {
            use_type_invariant(&self);
            lemma_unmanage_wf(self@.clients, window);
        }
        let Env { font, registry, scan, scanned, mode } = self;
        let mut registry = registry;
        let frame = registry.unmanage(window);
        let env = Env { font, registry, scan, scanned, mode };
        let mut requests: Vec<Request> = Vec::new();
        match frame {
            Some(frame) => {
                requests.push(Request::DestroyWindow { window: frame });
                assert(requests@ =~= seq![Request::DestroyWindow { window: frame }]);
            },
            None => {},
        }
        env.resume(requests)
    }

    /// Asks for the geometry that the client is to follow, if there is a client.
    fn configure(self, client: Option<Client>) -> (next: (Env, Vec<Request>))
        requires
            self@.mode == Mode::Running,
            client matches Some(c) ==> c.wf(),
        ensures
            (next.0@, next.1@) == self@.configure(client),
    {
        proof {
            use_type_invariant(&self);
        }
        match client {
            Some(client) => {
                let mut requests: Vec<Request> = Vec::new();
                requests.push(Request::GetGeometry { window: client.window });
                assert(requests@ =~= seq![Request::GetGeometry { window: client.window }]);
                (Env { mode: Mode::ConfigureGeometry { client }, ..self }, requests)
            },
            None => self.resume(Vec::new()),
        }
    }

    /// Asks for the name to paint into the client's title, if there is a client.
    fn redraw(self, client: Option<Client>) -> (next: (Env, Vec<Request>))
        requires
            self@.mode == Mode::Running,
            client matches Some(c) ==> c.wf(),
        ensures
            (next.0@, next.1@) == self@.redraw(client),
    {
        proof {
            use_type_invariant(&self);
        }
        match client {
            Some(client) => {
                let mut requests: Vec<Request> = Vec::new();
                requests.push(Request::FetchName { window: client.window });
                assert(requests@ =~= seq![Request::FetchName { window: client.window }]);
                (Env { mode: Mode::RedrawName { client }, ..self }, requests)
            },
            None => self.resume(Vec::new()),
        }
    }

    /// Reacts to a button pressed on the client, if there is a client.
    fn button_press(self, client: Option<Client>, button: u32) -> (next: (Env, Vec<Request>))
        requires
            self@.mode == Mode::Running,
            client matches Some(c) ==> c.wf(),
        ensures
            (next.0@, next.1@) == self@.button_press(client, button),
    {
        match client {
            Some(client) => {
                let (mode, requests) = client.handle_button_press(button);
                self.proceed(mode, requests)
            },
            None => self.resume(Vec::new()),
        }
    }

    /// Reacts to an event while nothing is in progress.
    fn dispatch(self, event: Event) -> (next: (Env, Vec<Request>))
        requires
            self@.mode == Mode::Running,
        ensures
            (next.0@, next.1@) == self@.dispatch(event),
    {
        match event {
            Event::ButtonPress { window, button } => {
                let client = self.registry.find_client(window);
                self.button_press(client, button)
            },
            Event::Expose { window, count } => {
                if count == 0 {
                    let client = self.registry.find_by_frame(window);
                    self.redraw(client)
                } else {
                    self.resume(Vec::new())
                }
            },
            Event::MapRequest { window } => self.manage(window, false),
            Event::Unmap { window } => self.unmanage(window),
            Event::Destroy { window } => self.unmanage(window),
            Event::ConfigureRequest { window } => {
                let client = self.registry.find_by_window(window);
                self.configure(client)
            },
            Event::PropertyNotify { window } => {
                let client = self.registry.find_by_window(window);
                self.redraw(client)
            },
            _ => self.resume(Vec::new()),
        }
    }

    /// Reacts to an event during a move.
    fn drag_move(self, client: Client, off_x: i16, off_y: i16, event: Event) -> (next: (
        Env,
        Vec<Request>,
    ))
        ensures
            (next.0@, next.1@) == self@.drag_move(client, off_x, off_y, event),
    {
        let mut requests: Vec<Request> = Vec::new();
        match event {
            Event::MotionNotify { x_root, y_root } => {
                requests.push(client.move_in_drag(off_x, off_y, x_root, y_root));
                requests.push(Request::NextEvent);
                assert(requests@ =~= self@.drag_move(client, off_x, off_y, event).1);
                (self, requests)
            },
            Event::ButtonRelease { x_root, y_root } => {
                requests.push(client.move_in_drag(off_x, off_y, x_root, y_root));
                assert(requests@ =~= seq![client.drag_move_spec(off_x, off_y, x_root, y_root)]);
                self.resume(requests)
            },
            _ => {
                requests.push(Request::NextEvent);
                assert(requests@ =~= seq![Request::NextEvent]);
                (self, requests)
            },
        }
    }

    /// Reacts to an event during a resize.
    fn drag_resize(self, client: Client, origin_x: i16, origin_y: i16, event: Event) -> (next: (
        Env,
        Vec<Request>,
    ))
        ensures
            (next.0@, next.1@) == self@.drag_resize(client, origin_x, origin_y, event),
    {
        match event {
            Event::MotionNotify { x_root, y_root } => {
                let mut requests = client.resize_in_drag(origin_x, origin_y, x_root, y_root);
                requests.push(Request::NextEvent);
                (self, requests)
            },
            Event::ButtonRelease { x_root, y_root } => {
                let requests = client.resize_in_drag(origin_x, origin_y, x_root, y_root);
                self.resume(requests)
            },
            _ => {
                let mut requests: Vec<Request> = Vec::new();
                requests.push(Request::NextEvent);
                assert(requests@ =~= seq![Request::NextEvent]);
                (self, requests)
            },
        }
    }

    /// Records the window being adopted, now that its frame exists.
    fn adopt(self, window: Window, ignore_unmap: bool, geometry: Geometry, frame: Window) -> (next: (
        Env,
        Vec<Request>,
    ))
        ensures
            (next.0@, next.1@) == self@.adopt(window, ignore_unmap, geometry, frame),
    {
        proof {
            use_type_invariant(&self);
        }
        let (client, requests) = Client::new(
            window,
            frame,
            title_height(self.font),
            ignore_unmap,
            geometry,
        );
        proof {
            lemma_adopt_wf(self@.clients, client);
        }
        let Env { font, registry, scan, scanned, mode } = self;
        let mut registry = registry;
        registry.adopt(client);
        Env::resume_with(font, registry, scan, scanned, requests)
    }

    /// Takes the list of windows found at startup and begins to look at them.
    fn begin_scan(self, windows: Vec<Window>) -> (next: (Env, Vec<Request>))
        ensures
            (next.0@, next.1@) == (EnvState { unscanned: windows@, ..self@ }).resume(Seq::empty()),
    {
        proof {
            use_type_invariant(&self);
        }
        let Env { font, registry, scan, scanned, mode } = self;
        assert(windows@.skip(0) =~= windows@);
        Env::resume_with(font, registry, windows, 0, Vec::new())
    }

    /// One step, on a manager that is given away and handed back.
    fn advance(self, reply: Reply) -> (next: (Env, Vec<Request>))
        ensures
            (next.0@, next.1@) == self@.step(reply),
    {
        proof {
            use_type_invariant(&self);
        }
        let mode = self.mode;
        match reply {
            Reply::Event(event) => match mode {
                Mode::Running => self.dispatch(event),
                Mode::Moving { client, off_x, off_y } => self.drag_move(client, off_x, off_y, event),
                Mode::Resizing { client, origin_x, origin_y } => self.drag_resize(
                    client,
                    origin_x,
                    origin_y,
                    event,
                ),
                _ => (self, Vec::new()),
            },
            Reply::Tree(windows) => match mode {
                Mode::AwaitTree => self.begin_scan(windows),
                _ => (self, Vec::new()),
            },
            Reply::Attributes { override_redirect } => match mode {
                Mode::ScanAttributes { window } => {
                    if override_redirect {
                        self.resume(Vec::new())
                    } else {
                        self.manage(window, true)
                    }
                },
                _ => (self, Vec::new()),
            },
            Reply::Geometry(geometry) => match mode {
                Mode::ManageGeometry { window, ignore_unmap } => {
                    let mut requests: Vec<Request> = Vec::new();
                    requests.push(Client::frame_for(geometry, title_height(self.font)));
                    assert(requests@ =~= seq![
                        Client::frame_request(geometry, self@.title_height()),
                    ]);
                    (
                        Env { mode: Mode::ManageFrame { window, ignore_unmap, geometry }, ..self },
                        requests,
                    )
                },
                Mode::ConfigureGeometry { client } => {
                    let requests = client.configure(geometry);
                    self.resume(requests)
                },
                Mode::ResizeGrab { client } => {
                    let mut requests: Vec<Request> = Vec::new();
                    requests.push(client.warp_pointer(geometry));
                    requests.push(Request::NextEvent);
                    assert(requests@ =~= seq![client.warp_spec(geometry), Request::NextEvent]);
                    (
                        Env {
                            mode: Mode::Resizing {
                                client,
                                origin_x: geometry.x,
                                origin_y: geometry.y,
                            },
                            ..self
                        },
                        requests,
                    )
                },
                _ => (self, Vec::new()),
            },
            Reply::Window(frame) => match mode {
                Mode::ManageFrame { window, ignore_unmap, geometry } => self.adopt(
                    window,
                    ignore_unmap,
                    geometry,
                    frame,
                ),
                _ => (self, Vec::new()),
            },
            Reply::Name(name) => match mode {
                Mode::RedrawName { client } => {
                    let requests = client.redraw_frame(name, self.font);
                    self.resume(requests)
                },
                _ => (self, Vec::new()),
            },
            Reply::Pointer(pointer) => match mode {
                Mode::MoveGrab { client } => {
                    let mut requests: Vec<Request> = Vec::new();
                    requests.push(Request::NextEvent);
                    assert(requests@ =~= seq![Request::NextEvent]);
                    (
                        Env {
                            mode: Mode::Moving {
                                client,
                                off_x: pointer.win_x,
                                off_y: pointer.win_y,
                            },
                            ..self
                        },
                        requests,
                    )
                },
                _ => (self, Vec::new()),
            },
        }
    }

    /// Begins the startup scan: asks for the windows that exist, so that each of them that
    /// is not override-redirect is adopted, marked `ignore_unmap`. While another operation
    /// is in progress this does nothing.
    pub fn scan_wins(&mut self) -> (requests: Vec<Request>)
        ensures
            (final(self)@, requests@) == old(self)@.scan(),
            final(self)@.wf(),
    {
        proof {
            use_type_invariant(&*self);
        }
        let mut requests: Vec<Request> = Vec::new();
        match self.mode {
            Mode::Running => {
                requests.push(Request::QueryTree);
                self.mode = Mode::AwaitTree;
                assert(requests@ =~= seq![Request::QueryTree]);
            },
            _ => {},
        }
        requests
    }

    /// One step of the manager: takes the reply to the pending query and returns the
    /// requests to carry out, in order. Unless the reply is ignored, the last of them is
    /// the query that is pending now, and those before it are commands.
    pub fn step(&mut self, reply: Reply) -> (requests: Vec<Request>)
        ensures
            (final(self)@, requests@) == old(self)@.step(reply),
            final(self)@.wf(),
    {
        let mut current = Env::new(None);
        std::mem::swap(self, &mut current);
        let (next, requests) = current.advance(reply);
        proof {
            use_type_invariant(&next);
        }
        *self = next;
        requests
    }

    /// One step of the manager on an event: [`Env::step`] on the reply that carries it.
    pub fn handle_event(&mut self, event: Event) -> (requests: Vec<Request>)
        ensures
            (final(self)@, requests@) == old(self)@.step(Reply::Event(event)),
            final(self)@.wf(),
    {
        self.step(Reply::Event(event))
    }
}

} // verus!
