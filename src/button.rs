//! Clickable buttons and the bounded queue of events they raise.
use vstd::prelude::*;
use std::collections::VecDeque;

verus! {

/// Most events a queue holds at once.
pub const EVENT_QUEUE_CAPACITY: usize = 256;

/// The buttons of the interface.
#[derive(Clone, Copy, Debug, PartialEq, Eq, Structural)]
pub enum ButtonId {
    /// Advances the turn counter.
    NextTurn,
}

/// Events raised by interface components.
#[derive(Clone, Copy, Debug, PartialEq, Eq, Structural)]
pub enum Event {
    ButtonClicked(ButtonId),
}

/// Events waiting to be handled, oldest first, at most
/// `EVENT_QUEUE_CAPACITY` of them.
pub struct EventQueue {
    queue: VecDeque<Event>,
}

impl EventQueue {
    pub closed spec fn view(&self) -> Seq<Event> {
        self.queue@
    }

    pub open spec fn wf(&self) -> bool {
        self@.len() <= EVENT_QUEUE_CAPACITY
    }

    /// An empty queue.
    pub fn new() -> (r: EventQueue)
        ensures
            r@ == Seq::<Event>::empty(),
            r.wf(),
    {
        EventQueue { queue: VecDeque::new() }
    }

    /// Number of events waiting.
    pub fn len(&self) -> (r: usize)
        ensures
            r == self@.len(),
    {
        self.queue.len()
    }

    /// Adds `event` at the back and returns `true`; when the queue is full,
    /// drops it, leaves the queue as it was and returns `false`.
    pub fn push(&mut self, event: Event) -> (r: bool)
        requires
            old(self).wf(),
        ensures
            final(self).wf(),
            r == (old(self)@.len() < EVENT_QUEUE_CAPACITY),
            final(self)@ == if r {
                old(self)@.push(event)
            } else {
                old(self)@
            },
    {
        if self.queue.len() < EVENT_QUEUE_CAPACITY {
            self.queue.push_back(event);
            true
        } else {
            false
        }
    }

    /// Removes and returns the oldest event, or `None` when there is none.
    pub fn pop(&mut self) -> (r: Option<Event>)
        requires
            old(self).wf(),
        ensures
            final(self).wf(),
            old(self)@.len() == 0 ==> r is None && final(self)@ == old(self)@,
            old(self)@.len() > 0 ==> r == Some(old(self)@[0]) && final(self)@
                == old(self)@.drop_first(),
    {
        let r = self.queue.pop_front();
        proof {
            if old(self)@.len() > 0 {
                assert(old(self)@.drop_first() == old(self)@.subrange(1, old(self)@.len() as int));
            }
        }
        r
    }
}

/// A screen rectangle, in pixels: `x <= px < x + w`, `y <= py < y + h`.
#[derive(Clone, Copy, Debug, PartialEq, Eq, Structural)]
pub struct Rect {
    pub x: i32,
    pub y: i32,
    pub w: i32,
    pub h: i32,
}

impl Rect {
    pub open spec fn holds(&self, px: int, py: int) -> bool {
        &&& self.x <= px < self.x + self.w
        &&& self.y <= py < self.y + self.h
    }

    pub fn contains_point(&self, px: i32, py: i32) -> (r: bool)
        ensures
            r == self.holds(px as int, py as int),
    {
        let x = self.x as i64;
        let y = self.y as i64;
        let p = px as i64;
        let q = py as i64;
        x <= p && p < x + self.w as i64 && y <= q && q < y + self.h as i64
    }
}

/// A clickable button, drawn with one texture, or another while hovered.
#[derive(Clone, Copy, Debug, PartialEq, Eq, Structural)]
pub struct Button {
    /// Which button this is; the event it raises carries it.
    pub id: ButtonId,
    /// Where it is on screen.
    pub rect: Rect,
    /// Texture drawn when not hovered.
    pub texture_id: u32,
    /// Texture drawn when hovered.
    pub hovered_texture_id: u32,
}

impl Button {
    pub fn new(id: ButtonId, rect: Rect, texture_id: u32, hovered_texture_id: u32) -> (r: Button)
        ensures
            r == (Button { id, rect, texture_id, hovered_texture_id }),
    {
        Button { id, rect, texture_id, hovered_texture_id }
    }

    /// Raises a click event when the pointer is over the button and clicked;
    /// returns whether one was queued.
    pub fn update(&self, mouse_x: i32, mouse_y: i32, clicked: bool, queue: &mut EventQueue) -> (r:
        bool)
        requires
            old(queue).wf(),
        ensures
            final(queue).wf(),
            r == (clicked && self.rect.holds(mouse_x as int, mouse_y as int) && old(queue)@.len()
                < EVENT_QUEUE_CAPACITY),
            final(queue)@ == if r {
                old(queue)@.push(Event::ButtonClicked(self.id))
            } else {
                old(queue)@
            },
    {
        let is_hovered = self.rect.contains_point(mouse_x, mouse_y);
        if is_hovered && clicked {
            queue.push(Event::ButtonClicked(self.id))
        } else {
            false
        }
    }

    /// The texture to draw with the pointer at the given place.
    pub fn texture_at(&self, mouse_x: i32, mouse_y: i32) -> (r: u32)
        ensures
            r == if self.rect.holds(mouse_x as int, mouse_y as int) {
                self.hovered_texture_id
            } else {
                self.texture_id
            },
    {
        if self.rect.contains_point(mouse_x, mouse_y) {
            self.hovered_texture_id
        } else {
            self.texture_id
        }
    }
}

} // verus!
