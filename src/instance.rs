use vstd::prelude::*;

use crate::error::PluginLoadError;
use crate::info::{category_of, is_text_before_nul, lossy_text, Descriptor, Info};
use crate::opcode::{PLUGIN_INITIALIZE, PLUGIN_SHUTDOWN};
use crate::registry::HostRegistry;

verus! {

/// A host-to-plugin message: the opcode and the integer arguments handed to the plugin's
/// dispatcher (its pointer and float arguments are supplied where the call is made).
#[derive(Clone, Copy, Debug, PartialEq, Eq, Structural)]
pub struct Message {
    pub opcode: i32,
    pub index: i32,
    pub value: isize,
}

/// How many times `op` occurs in a log of dispatched opcodes.
pub open spec fn count_of(log: Seq<i32>, op: i32) -> nat
    decreases log.len(),
{
    if log.len() == 0 {
        0
    } else {
        count_of(log.drop_last(), op) + if log.last() == op {
            1nat
        } else {
            0nat
        }
    }
}

proof fn lemma_count_push(log: Seq<i32>, x: i32, op: i32)
    ensures
        count_of(log.push(x), op) == count_of(log, op) + if x == op {
            1nat
        } else {
            0nat
        },
{
    assert(log.push(x).drop_last() =~= log);
}

/// A plugin library that has been opened and whose entry point has been found.
pub struct PluginLoader<L, M, H> {
    main: M,
    lib: L,
    host: H,
}

impl<L, M, H> PluginLoader<L, M, H> {
    pub closed spec fn entry(self) -> M {
        self.main
    }

    pub closed spec fn library(self) -> L {
        self.lib
    }

    pub closed spec fn host_handle(self) -> H {
        self.host
    }

    /// Decides the outcome of loading: `lib` is the opened library (`None` where the path
    /// could not be opened) and `main` the entry point found in it (`None` where the
    /// library does not export it).
    pub fn load(lib: Option<L>, main: Option<M>, host: H) -> (r: Result<Self, PluginLoadError>)
        ensures
            lib is None ==> r == Err::<Self, PluginLoadError>(PluginLoadError::InvalidPath),
            lib is Some && main is None ==> r == Err::<Self, PluginLoadError>(
                PluginLoadError::NotAPlugin,
            ),
            lib is Some && main is Some ==> (r matches Ok(p) && p.library() == lib.unwrap()
                && p.entry() == main.unwrap() && p.host_handle() == host),
    {
        match lib {
            None => Err(PluginLoadError::InvalidPath),
            Some(lib) => match main {
                None => Err(PluginLoadError::NotAPlugin),
                Some(main) => Ok(PluginLoader { main, lib, host }),
            },
        }
    }

    /// The plugin's entry point.
    pub fn main(&self) -> (r: &M)
        ensures
            *r == self.entry(),
    {
        &self.main
    }

    /// The opened library.
    pub fn lib(&self) -> (r: &L)
        ensures
            *r == self.library(),
    {
        &self.lib
    }

    /// The host handle that instances of this plugin report to.
    pub fn host(&self) -> (r: &H)
        ensures
            *r == self.host_handle(),
    {
        &self.host
    }

    /// Completes an instantiation once the entry point has returned: `effect` is the
    /// descriptor it gave (`None` for a null pointer). The staged host is attached to the
    /// new instance under a fresh id; without a descriptor the instantiation fails.
    pub fn instance<E>(&self, registry: &mut HostRegistry<H>, effect: Option<E>) -> (r: Result<
        PluginInstance<E>,
        PluginLoadError,
    >)
        requires
            old(registry)@.wf(),
            old(registry)@.bootstrapping(),
            old(registry)@.has_room(),
        ensures
            final(registry)@ == old(registry)@.finished(effect is Some),
            final(registry)@.wf(),
            effect is None ==> r == Err::<PluginInstance<E>, PluginLoadError>(
                PluginLoadError::InstanceFailed,
            ),
            effect is Some ==> (r matches Ok(inst) && inst.wf() && inst.effect_handle()
                == effect.unwrap() && inst.instance_id() == old(registry)@.next_id
                && inst.sent_log() == Seq::<i32>::empty() && !inst.closed() && inst.info() is None),
    {
        let id = registry.finish_bootstrap(effect.is_some());
        match effect {
            None => Err(PluginLoadError::InstanceFailed),
            Some(effect) => {
                let id = id.unwrap();
                Ok(PluginInstance { effect, id, info: None, closed: false, sent: Ghost(Seq::empty()) })
            },
        }
    }
}

/// A live instance of a plugin: its descriptor handle, the id that ties it to its host,
/// its info snapshot, and the record of what has been dispatched to it.
pub struct PluginInstance<E> {
    effect: E,
    id: u64,
    info: Option<Info>,
    closed: bool,
    sent: Ghost<Seq<i32>>,
}

impl<E> PluginInstance<E> {
    pub closed spec fn effect_handle(self) -> E {
        self.effect
    }

    pub closed spec fn instance_id(self) -> u64 {
        self.id
    }

    pub closed spec fn info(self) -> Option<Info> {
        self.info
    }

    pub closed spec fn closed(self) -> bool {
        self.closed
    }

    /// The opcodes dispatched to the plugin so far, in the order they were sent.
    pub closed spec fn sent_log(self) -> Seq<i32> {
        self.sent@
    }

    /// The plugin has been shut down exactly when the shutdown opcode has been sent, it has
    /// been sent at most once, and nothing has been sent after it.
    pub open spec fn wf(self) -> bool {
        &&& count_of(self.sent_log(), PLUGIN_SHUTDOWN) == if self.closed() {
            1nat
        } else {
            0nat
        }
        &&& self.closed() ==> self.sent_log().last() == PLUGIN_SHUTDOWN
    }

    /// The descriptor handle.
    pub fn effect(&self) -> (r: &E)
        ensures
            *r == self.effect_handle(),
    {
        &self.effect
    }

    /// The id stored in the descriptor's reserved slot.
    pub fn id(&self) -> (r: u64)
        ensures
            r == self.instance_id(),
    {
        self.id
    }

    /// Whether the info snapshot has been taken.
    pub fn has_info(&self) -> (r: bool)
        ensures
            r == self.info() is Some,
    {
        self.info.is_some()
    }

    /// Whether the shutdown opcode has been sent.
    pub fn is_closed(&self) -> (r: bool)
        ensures
            r == self.closed(),
    {
        self.closed
    }

    /// Takes the info snapshot, once, from the descriptor's fields, the name buffers the
    /// plugin filled and its category reply.
    pub fn read_info(&mut self, d: &Descriptor, name_buf: &Vec<u8>, vendor_buf: &Vec<u8>, category: isize)
        requires
            old(self).info() is None,
        ensures
            final(self).info() matches Some(i) && i.matches_descriptor(*d) && is_text_before_nul(
                lossy_text(name_buf@),
                i.name@,
            ) && is_text_before_nul(lossy_text(vendor_buf@), i.vendor@) && i.category
                == category_of(category),
            final(self).effect_handle() == old(self).effect_handle(),
            final(self).instance_id() == old(self).instance_id(),
            final(self).closed() == old(self).closed(),
            final(self).sent_log() == old(self).sent_log(),
    {
        self.info = Some(Info::from_descriptor(d, name_buf, vendor_buf, category));
    }

    /// The info snapshot.
    pub fn get_info(&self) -> (r: Info)
        requires
            self.info() is Some,
        ensures
            r == self.info().unwrap(),
    {
        self.info.as_ref().unwrap().duplicate()
    }

    /// Records a message to send to the plugin's dispatcher and returns it.
    pub fn dispatch(&mut self, opcode: i32, index: i32, value: isize) -> (r: Message)
        requires
            old(self).wf(),
            !old(self).closed(),
            opcode != PLUGIN_SHUTDOWN,
        ensures
            r == (Message { opcode, index, value }),
            final(self).sent_log() == old(self).sent_log().push(opcode),
            final(self).wf(),
            final(self).info() == old(self).info(),
            final(self).effect_handle() == old(self).effect_handle(),
            final(self).instance_id() == old(self).instance_id(),
            final(self).closed() == old(self).closed(),
    {
        proof {
            lemma_count_push(self.sent@, opcode, PLUGIN_SHUTDOWN);
        }
        self.sent = Ghost(self.sent@.push(opcode));
        Message { opcode, index, value }
    }

    /// A message that carries only an opcode.
    pub fn opcode(&mut self, opcode: i32) -> (r: Message)
        requires
            old(self).wf(),
            !old(self).closed(),
            opcode != PLUGIN_SHUTDOWN,
        ensures
            r == (Message { opcode, index: 0, value: 0 }),
            final(self).sent_log() == old(self).sent_log().push(opcode),
            final(self).wf(),
            final(self).info() == old(self).info(),
            final(self).effect_handle() == old(self).effect_handle(),
            final(self).instance_id() == old(self).instance_id(),
            final(self).closed() == old(self).closed(),
    {
        self.dispatch(opcode, 0, 0)
    }

    /// The message that initialises the plugin; the owner chooses when to send it.
    pub fn init(&mut self) -> (r: Message)
        requires
            old(self).wf(),
            !old(self).closed(),
        ensures
            r == (Message { opcode: PLUGIN_INITIALIZE, index: 0, value: 0 }),
            final(self).sent_log() == old(self).sent_log().push(PLUGIN_INITIALIZE),
            final(self).wf(),
            final(self).info() == old(self).info(),
            final(self).effect_handle() == old(self).effect_handle(),
            final(self).instance_id() == old(self).instance_id(),
            final(self).closed() == old(self).closed(),
    {
        self.opcode(PLUGIN_INITIALIZE)
    }

    /// The shutdown message, the first time the instance is torn down, whether or not it was
    /// initialised or its snapshot taken; `None` on every later call.
    pub fn shutdown(&mut self) -> (r: Option<Message>)
        requires
            old(self).wf(),
        ensures
            old(self).closed() ==> r is None && *final(self) == *old(self),
            !old(self).closed() ==> r == Some(Message { opcode: PLUGIN_SHUTDOWN, index: 0, value: 0 })
                && final(self).sent_log() == old(self).sent_log().push(PLUGIN_SHUTDOWN),
            final(self).closed(),
            final(self).wf(),
            count_of(final(self).sent_log(), PLUGIN_SHUTDOWN) == 1,
            final(self).info() == old(self).info(),
            final(self).effect_handle() == old(self).effect_handle(),
            final(self).instance_id() == old(self).instance_id(),
    {
        if self.closed {
            None
        } else {
            proof {
                lemma_count_push(self.sent@, PLUGIN_SHUTDOWN, PLUGIN_SHUTDOWN);
            }
            self.sent = Ghost(self.sent@.push(PLUGIN_SHUTDOWN));
            self.closed = true;
            Some(Message { opcode: PLUGIN_SHUTDOWN, index: 0, value: 0 })
        }
    }
}

/// Two dispatches made one after the other reach the plugin in that order, right after
/// everything sent before them.
pub proof fn lemma_dispatch_order<E>(
    s0: PluginInstance<E>,
    s1: PluginInstance<E>,
    s2: PluginInstance<E>,
    a: i32,
    b: i32,
)
    requires
        s1.sent_log() == s0.sent_log().push(a),
        s2.sent_log() == s1.sent_log().push(b),
    ensures
        s2.sent_log() == s0.sent_log() + seq![a, b],
        s2.sent_log()[s0.sent_log().len() as int] == a,
        s2.sent_log()[s0.sent_log().len() + 1int] == b,
{
    assert(s2.sent_log() =~= s0.sent_log() + seq![a, b]);
}

} // verus!
