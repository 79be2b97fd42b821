//! The table of managed clients, looked up by client window or by frame.

use vstd::prelude::*;
use crate::client::Client;
use crate::geometry::Window;

verus! {

/// Which of a client's two windows a lookup goes by.
#[derive(Clone, Copy, Debug, PartialEq, Eq, Structural)]
pub enum Role {
    /// The application's own window.
    Window,
    /// The frame around it.
    Frame,
}

/// The window that `client` has in `role`.
pub open spec fn id_of(client: Client, role: Role) -> Window {
    match role {
        Role::Window => client.window,
        Role::Frame => client.frame,
    }
}

/// `i` is the place of the first client whose window in `role` is `id`.
pub open spec fn is_first(clients: Seq<Client>, role: Role, id: Window, i: int) -> bool {
    &&& 0 <= i < clients.len()
    &&& id_of(clients[i], role) == id
    &&& forall|j: int| 0 <= j < i ==> id_of(#[trigger] clients[j], role) != id
}

/// The place of the first client whose window in `role` is `id`, if there is one.
pub open spec fn position(clients: Seq<Client>, role: Role, id: Window) -> Option<int> {
    if exists|i: int| is_first(clients, role, id, i) {
        Some(choose|i: int| is_first(clients, role, id, i))
    } else {
        None
    }
}

/// The first client whose window in `role` is `id`, if there is one.
pub open spec fn find(clients: Seq<Client>, role: Role, id: Window) -> Option<Client> {
    match position(clients, role, id) {
        Some(i) => Some(clients[i]),
        None => None,
    }
}

/// The client that an event on `id` concerns: the one framed by `id`, or else the one whose
/// own window `id` is.
pub open spec fn find_either(clients: Seq<Client>, id: Window) -> Option<Client> {
    match find(clients, Role::Frame, id) {
        Some(client) => Some(client),
        None => find(clients, Role::Window, id),
    }
}

/// Some client's own window is `window`.
pub open spec fn manages(clients: Seq<Client>, window: Window) -> bool {
    exists|i: int| 0 <= i < clients.len() && (#[trigger] clients[i]).window == window
}

/// Some client's frame is `frame`.
pub open spec fn frames(clients: Seq<Client>, frame: Window) -> bool {
    exists|i: int| 0 <= i < clients.len() && (#[trigger] clients[i]).frame == frame
}

/// The frame around `window`, if `window` is managed.
pub open spec fn frame_of(clients: Seq<Client>, window: Window) -> Option<Window> {
    match find(clients, Role::Window, window) {
        Some(client) => Some(client.frame),
        None => None,
    }
}

/// The window inside `frame`, if `frame` is the frame of a client.
pub open spec fn client_of(clients: Seq<Client>, frame: Window) -> Option<Window> {
    match find(clients, Role::Frame, frame) {
        Some(client) => Some(client.window),
        None => None,
    }
}

/// No two clients have the same window.
pub open spec fn distinct_windows(clients: Seq<Client>) -> bool {
    forall|i: int, j: int|
        0 <= i < clients.len() && 0 <= j < clients.len() && i != j ==> (#[trigger] clients[i]).window
            != (#[trigger] clients[j]).window
}

/// No two clients have the same frame.
pub open spec fn distinct_frames(clients: Seq<Client>) -> bool {
    forall|i: int, j: int|
        0 <= i < clients.len() && 0 <= j < clients.len() && i != j ==> (#[trigger] clients[i]).frame
            != (#[trigger] clients[j]).frame
}

/// What a table of clients always satisfies: one record per window, each well formed.
pub open spec fn registry_wf(clients: Seq<Client>) -> bool {
    &&& distinct_windows(clients)
    &&& forall|i: int| 0 <= i < clients.len() ==> (#[trigger] clients[i]).wf()
}

/// The table after `client` is recorded: unchanged if its window is managed already.
pub open spec fn adopt_spec(clients: Seq<Client>, client: Client) -> Seq<Client> {
    if manages(clients, client.window) {
        clients
    } else {
        clients.push(client)
    }
}

/// The table after an unmap or destroy notification for `window`, and the frame to destroy.
///
/// A window that is not managed changes nothing. A client still marked `ignore_unmap` loses
/// the mark and stays. Any other client leaves the table, and its frame is to be destroyed.
pub open spec fn unmanage_spec(clients: Seq<Client>, window: Window) -> (
    Seq<Client>,
    Option<Window>,
) {
    match position(clients, Role::Window, window) {
        None => (clients, None),
        Some(i) => if clients[i].ignore_unmap {
            (clients.update(i, Client { ignore_unmap: false, ..clients[i] }), None)
        } else {
            (clients.remove(i), Some(clients[i].frame))
        },
    }
}

/// The first place with a given window is the only place that `position` can name.
pub proof fn lemma_position_is_first(clients: Seq<Client>, role: Role, id: Window, i: int)
    requires
        is_first(clients, role, id, i),
    ensures
        position(clients, role, id) == Some(i),
{
    let k = choose|k: int| is_first(clients, role, id, k);
    assert(is_first(clients, role, id, k));
    if k < i {
        assert(id_of(clients[k], role) != id);
    } else if i < k {
        assert(id_of(clients[i], role) != id);
    }
}

/// Where some client has the window, a first such client exists.
pub proof fn lemma_first_exists(clients: Seq<Client>, role: Role, id: Window, i: int)
    requires
        0 <= i < clients.len(),
        id_of(clients[i], role) == id,
    ensures
        position(clients, role, id) is Some,
        position(clients, role, id)->0 <= i,
        is_first(clients, role, id, position(clients, role, id)->0),
    decreases i,
{
    if exists|j: int| 0 <= j < i && id_of(#[trigger] clients[j], role) == id {
        let j = choose|j: int| 0 <= j < i && id_of(#[trigger] clients[j], role) == id;
        lemma_first_exists(clients, role, id, j);
    } else {
        assert(is_first(clients, role, id, i));
        lemma_position_is_first(clients, role, id, i);
    }
}

/// What `position` says of the table: a place it names is the first with the window, and
/// where it names none, no client has the window.
pub proof fn lemma_position(clients: Seq<Client>, role: Role, id: Window)
    ensures
        match position(clients, role, id) {
            Some(i) => is_first(clients, role, id, i),
            None => forall|j: int|
                0 <= j < clients.len() ==> id_of(#[trigger] clients[j], role) != id,
        },
{
    match position(clients, role, id) {
        Some(i) => {},
        None => {
            assert forall|j: int| 0 <= j < clients.len() implies id_of(
                #[trigger] clients[j],
                role,
            ) != id by {
                if id_of(clients[j], role) == id {
                    lemma_first_exists(clients, role, id, j);
                }
            }
        },
    }
}

/// A window has a frame exactly if it is managed, and the frame is that of a client whose
/// window it is.
pub proof fn lemma_frame_of_iff_managed(clients: Seq<Client>, window: Window)
    ensures
        frame_of(clients, window) is Some <==> manages(clients, window),
        frame_of(clients, window) matches Some(frame) ==> exists|i: int|
            0 <= i < clients.len() && (#[trigger] clients[i]).window == window && clients[i].frame
                == frame,
{
    lemma_position(clients, Role::Window, window);
    match position(clients, Role::Window, window) {
        Some(i) => {
            assert(clients[i].window == window);
        },
        None => {
            assert(!manages(clients, window));
        },
    }
}

/// A frame has a client exactly if it frames one.
pub proof fn lemma_client_of_iff_frames(clients: Seq<Client>, frame: Window)
    ensures
        client_of(clients, frame) is Some <==> frames(clients, frame),
{
    lemma_position(clients, Role::Frame, frame);
    match position(clients, Role::Frame, frame) {
        Some(i) => {
            assert(clients[i].frame == frame);
        },
        None => {
            assert(!frames(clients, frame));
        },
    }
}

/// A notification for a window that is not managed changes nothing and destroys nothing.
pub proof fn lemma_unmanage_untracked(clients: Seq<Client>, window: Window)
    requires
        !manages(clients, window),
    ensures
        unmanage_spec(clients, window) == (clients, None::<Window>),
{
    lemma_frame_of_iff_managed(clients, window);
}

/// Recording a client whose window is managed already changes nothing.
pub proof fn lemma_adopt_tracked(clients: Seq<Client>, client: Client)
    requires
        manages(clients, client.window),
    ensures
        adopt_spec(clients, client) == clients,
{
}

/// Recording a well-formed client keeps the table well formed. Afterwards its window is
/// managed, and every other window is managed exactly if it was before.
pub proof fn lemma_adopt_wf(clients: Seq<Client>, client: Client)
    requires
        registry_wf(clients),
        client.wf(),
    ensures
        registry_wf(adopt_spec(clients, client)),
        manages(adopt_spec(clients, client), client.window),
        forall|w: Window|
            w != client.window ==> (manages(adopt_spec(clients, client), w) <==> manages(
                clients,
                w,
            )),
{
    let after = adopt_spec(clients, client);
    if manages(clients, client.window) {
    } else {
        assert(after[clients.len() as int] == client);
        assert forall|w: Window| w != client.window implies (manages(after, w) <==> manages(
            clients,
            w,
        )) by {
            if manages(clients, w) {
                let i = choose|i: int| 0 <= i < clients.len() && (#[trigger] clients[i]).window == w;
                assert(after[i].window == w);
            }
            if manages(after, w) {
                let i = choose|i: int| 0 <= i < after.len() && (#[trigger] after[i]).window == w;
                assert(clients[i].window == w);
            }
        }
    }
}

/// A notification keeps the table well formed. It takes the window out of the table exactly
/// if the window was managed without the mark, and touches no other window.
pub proof fn lemma_unmanage_wf(clients: Seq<Client>, window: Window)
    requires
        registry_wf(clients),
    ensures
        registry_wf(unmanage_spec(clients, window).0),
        manages(unmanage_spec(clients, window).0, window) <==> (find(
            clients,
            Role::Window,
            window,
        ) matches Some(client) && client.ignore_unmap),
        unmanage_spec(clients, window).1 is Some <==> (find(
            clients,
            Role::Window,
            window,
        ) matches Some(client) && !client.ignore_unmap),
        forall|w: Window|
            w != window ==> (manages(unmanage_spec(clients, window).0, w) <==> manages(clients, w)),
{
    let after = unmanage_spec(clients, window).0;
    lemma_position(clients, Role::Window, window);
    match position(clients, Role::Window, window) {
        None => {
            assert(!manages(clients, window));
        },
        Some(i) => {
            if clients[i].ignore_unmap {
                assert(after[i].window == window);
                assert forall|w: Window| w != window implies (manages(after, w) <==> manages(
                    clients,
                    w,
                )) by {
                    if manages(clients, w) {
                        let k = choose|k: int|
                            0 <= k < clients.len() && (#[trigger] clients[k]).window == w;
                        assert(after[k].window == w);
                    }
                    if manages(after, w) {
                        let k = choose|k: int|
                            0 <= k < after.len() && (#[trigger] after[k]).window == w;
                        assert(clients[k].window == w);
                    }
                }
            } else {
                assert forall|k: int| 0 <= k < after.len() implies (#[trigger] after[k]).window
                    != window by {
                    if k < i {
                        assert(after[k] == clients[k]);
                    } else {
                        assert(after[k] == clients[k + 1]);
                    }
                }
                assert forall|w: Window| w != window implies (manages(after, w) <==> manages(
                    clients,
                    w,
                )) by {
                    if manages(clients, w) {
                        let k = choose|k: int|
                            0 <= k < clients.len() && (#[trigger] clients[k]).window == w;
                        if k < i {
                            assert(after[k].window == w);
                        } else {
                            assert(after[k - 1].window == w);
                        }
                    }
                    if manages(after, w) {
                        let k = choose|k: int|
                            0 <= k < after.len() && (#[trigger] after[k]).window == w;
                        if k < i {
                            assert(clients[k].window == w);
                        } else {
                            assert(clients[k + 1].window == w);
                        }
                    }
                }
                assert forall|a: int, b: int|
                    0 <= a < after.len() && 0 <= b < after.len() && a != b implies (
                #[trigger] after[a]).window != (#[trigger] after[b]).window by {
                    let a0 = if a < i { a } else { a + 1 };
                    let b0 = if b < i { b } else { b + 1 };
                    assert(after[a] == clients[a0]);
                    assert(after[b] == clients[b0]);
                }
            }
        },
    }
}

/// Frames stay distinct when a client is recorded whose frame no other client has.
pub proof fn lemma_adopt_keeps_frames_distinct(clients: Seq<Client>, client: Client)
    requires
        distinct_frames(clients),
        !frames(clients, client.frame),
    ensures
        distinct_frames(adopt_spec(clients, client)),
{
    let after = adopt_spec(clients, client);
    assert forall|a: int, b: int|
        0 <= a < after.len() && 0 <= b < after.len() && a != b implies (#[trigger] after[a]).frame
        != (#[trigger] after[b]).frame by {
        if a < clients.len() {
            assert(clients[a].frame == after[a].frame);
        }
        if b < clients.len() {
            assert(clients[b].frame == after[b].frame);
        }
    }
}

/// Frames stay distinct when a notification is taken note of.
pub proof fn lemma_unmanage_keeps_frames_distinct(clients: Seq<Client>, window: Window)
    requires
        distinct_frames(clients),
    ensures
        distinct_frames(unmanage_spec(clients, window).0),
{
    let after = unmanage_spec(clients, window).0;
    lemma_position(clients, Role::Window, window);
    match position(clients, Role::Window, window) {
        None => {},
        Some(i) => {
            assert forall|a: int, b: int|
                0 <= a < after.len() && 0 <= b < after.len() && a != b implies (
            #[trigger] after[a]).frame != (#[trigger] after[b]).frame by {
                if clients[i].ignore_unmap {
                    assert(after[a].frame == clients[a].frame);
                    assert(after[b].frame == clients[b].frame);
                } else {
                    let a0 = if a < i { a } else { a + 1 };
                    let b0 = if b < i { b } else { b + 1 };
                    assert(after[a] == clients[a0]);
                    assert(after[b] == clients[b0]);
                }
            }
        },
    }
}

/// A client adopted at startup survives the first notification for its window, without the
/// mark, and leaves the table on the second, when its frame is destroyed.
pub proof fn lemma_unmap_twice(clients: Seq<Client>, window: Window)
    requires
        registry_wf(clients),
        find(clients, Role::Window, window) matches Some(client) && client.ignore_unmap,
    ensures
        ({
            let first = unmanage_spec(clients, window);
            let second = unmanage_spec(first.0, window);
            &&& first.1 is None
            &&& first.0.len() == clients.len()
            &&& find(first.0, Role::Window, window) == Some(
                Client { ignore_unmap: false, ..find(clients, Role::Window, window)->0 },
            )
            &&& second.1 == frame_of(clients, window)
            &&& !manages(second.0, window)
            &&& second.0.len() == clients.len() - 1
        }),
{
    let first = unmanage_spec(clients, window);
    lemma_position(clients, Role::Window, window);
    let i = position(clients, Role::Window, window)->0;
    assert(is_first(first.0, Role::Window, window, i)) by {
        assert forall|j: int| 0 <= j < i implies id_of(#[trigger] first.0[j], Role::Window)
            != window by {
            assert(first.0[j] == clients[j]);
        }
    }
    lemma_position_is_first(first.0, Role::Window, window, i);
    lemma_unmanage_wf(clients, window);
    lemma_unmanage_wf(first.0, window);
}

/// The managed clients.
pub struct Registry {
    clients: Vec<Client>,
}

impl View for Registry {
    type V = Seq<Client>;

    closed spec fn view(&self) -> Seq<Client> {
        self.clients@
    }
}

impl Registry {
    /// Every table is well formed.
    #[verifier::type_invariant]
    pub open spec fn wf(self) -> bool {
        registry_wf(self@)
    }

    /// An empty table.
    pub fn new() -> (registry: Registry)
        ensures
            registry@ == Seq::<Client>::empty(),
    {
        Registry { clients: Vec::new() }
    }

    /// The number of managed clients.
    pub fn len(&self) -> (n: usize)
        ensures
            n == self@.len(),
    {
        self.clients.len()
    }

    /// The client at place `i`, in the order of adoption.
    pub fn get(&self, i: usize) -> (client: Option<Client>)
        ensures
            client == if i < self@.len() {
                Some(self@[i as int])
            } else {
                None
            },
    {
        if i < self.clients.len() {
            Some(self.clients[i])
        } else {
            None
        }
    }

    /// The place of the first client whose window in `role` is `id`.
    fn position(&self, role: Role, id: Window) -> (place: Option<usize>)
        ensures
            match place {
                Some(i) => position(self@, role, id) == Some(i as int) && i < self@.len(),
                None => position(self@, role, id) is None,
            },
    {
        let mut i: usize = 0;
        while i < self.clients.len()
            invariant
                i <= self.clients@.len(),
                forall|j: int| 0 <= j < i ==> id_of(#[trigger] self.clients@[j], role) != id,
            decreases self.clients@.len() - i,
        {
            let client = self.clients[i];
            let found = match role {
                Role::Window => client.window == id,
                Role::Frame => client.frame == id,
            };
            if found {
                proof {
                    assert(is_first(self@, role, id, i as int));
                    lemma_position_is_first(self@, role, id, i as int);
                }
                return Some(i);
            }
            i += 1;
        }
        proof {
            lemma_position(self@, role, id);
        }
        None
    }

    /// The client whose own window is `window`.
    pub fn find_by_window(&self, window: Window) -> (client: Option<Client>)
        ensures
            client == find(self@, Role::Window, window),
            client is Some <==> manages(self@, window),
            client matches Some(c) ==> c.window == window && c.wf(),
    {
        proof {
            use_type_invariant(self);
            lemma_frame_of_iff_managed(self@, window);
            lemma_position(self@, Role::Window, window);
        }
        match self.position(Role::Window, window) {
            Some(i) => Some(self.clients[i]),
            None => None,
        }
    }

    /// The client whose frame is `frame`.
    pub fn find_by_frame(&self, frame: Window) -> (client: Option<Client>)
        ensures
            client == find(self@, Role::Frame, frame),
            client is Some <==> frames(self@, frame),
            client matches Some(c) ==> c.frame == frame && c.wf(),
    {
        proof {
            use_type_invariant(self);
            lemma_client_of_iff_frames(self@, frame);
            lemma_position(self@, Role::Frame, frame);
        }
        match self.position(Role::Frame, frame) {
            Some(i) => Some(self.clients[i]),
            None => None,
        }
    }

    /// The client that an event on `id` concerns: the one framed by `id`, or else the one
    /// whose own window `id` is.
    pub fn find_client(&self, id: Window) -> (client: Option<Client>)
        ensures
            client == find_either(self@, id),
            client is Some <==> frames(self@, id) || manages(self@, id),
            client matches Some(c) ==> c.wf(),
    {
        match self.find_by_frame(id) {
            Some(client) => Some(client),
            None => self.find_by_window(id),
        }
    }

    /// The frame around `window`. It is there exactly if `window` is managed.
    pub fn frame_of(&self, window: Window) -> (frame: Option<Window>)
        ensures
            frame == frame_of(self@, window),
            frame is Some <==> manages(self@, window),
    {
        match self.find_by_window(window) {
            Some(client) => Some(client.frame),
            None => None,
        }
    }

    /// The window inside `frame`. It is there exactly if `frame` frames a client.
    pub fn client_of(&self, frame: Window) -> (window: Option<Window>)
        ensures
            window == client_of(self@, frame),
            window is Some <==> frames(self@, frame),
    {
        match self.find_by_frame(frame) {
            Some(client) => Some(client.window),
            None => None,
        }
    }

    /// Records `client`, unless its window is managed already. Says whether it was recorded.
    pub fn adopt(&mut self, client: Client) -> (recorded: bool)
        requires
            client.wf(),
        ensures
            final(self)@ == adopt_spec(old(self)@, client),
            recorded == !manages(old(self)@, client.window),
    {
        proof {
            use_type_invariant(&*self);
            lemma_adopt_wf(self@, client);
        }
        if self.find_by_window(client.window).is_some() {
            false
        } else {
            let mut clients: Vec<Client> = Vec::new();
            std::mem::swap(&mut clients, &mut self.clients);
            clients.push(client);
            self.clients = clients;
            true
        }
    }

    /// Takes note of an unmap or destroy notification for `window`, and returns the frame
    /// to destroy if the client left the table.
    pub fn unmanage(&mut self, window: Window) -> (frame: Option<Window>)
        ensures
            (final(self)@, frame) == unmanage_spec(old(self)@, window),
            !manages(old(self)@, window) ==> final(self)@ == old(self)@ && frame is None,
            frame is Some ==> !manages(final(self)@, window) && frame == frame_of(
                old(self)@,
                window,
            ),
    {
        proof {
            use_type_invariant(&*self);
            lemma_unmanage_wf(self@, window);
        }
        match self.position(Role::Window, window) {
            None => None,
            Some(i) => {
                let client = self.clients[i];
                let mut clients: Vec<Client> = Vec::new();
                std::mem::swap(&mut clients, &mut self.clients);
                let frame = if client.ignore_unmap {
                    clients.set(i, Client { ignore_unmap: false, ..client });
                    None
                } else {
                    clients.remove(i);
                    Some(client.frame)
                };
                self.clients = clients;
                frame
            },
        }
    }
}

} // verus!
