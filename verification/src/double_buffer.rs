//! Double buffer pattern: a scene draws into one frame buffer while the other
//! one is shown, and swaps the two after every frame.

use vstd::prelude::*;

verus! {

/// Screen and frame buffer width.
pub const WIDTH: usize = 10;

/// Screen and frame buffer height.
pub const HEIGHT: usize = 10;

/// Bytes in a frame buffer: four for each pixel.
pub const FRAME_BUFFER_SIZE: usize = WIDTH * HEIGHT * 4;

pub const NUM_BUFFERS: usize = 2;

/// A cleared buffer of `len` bytes.
pub open spec fn blank(len: nat) -> Seq<u8> {
    Seq::new(len, |i: int| 0u8)
}

/// Where the pixel at `loc` starts in a buffer.
pub open spec fn offset(loc: (usize, usize)) -> int {
    (loc.0 + loc.1 * WIDTH) * 4
}

/// `data` with the pixel at `loc` set to the colour (R, G, B, A). A pixel is
/// stored as blue, green, red, alpha.
pub open spec fn painted(data: Seq<u8>, loc: (usize, usize), color: (u8, u8, u8, u8)) -> Seq<u8> {
    let pos = offset(loc);
    data.update(pos, color.2).update(pos + 1, color.1).update(pos + 2, color.0).update(
        pos + 3,
        color.3,
    )
}

/// What a scene draws into a buffer: two white pixels on a cleared screen.
pub open spec fn frame(len: nat) -> Seq<u8> {
    painted(painted(blank(len), (1, 1), (255, 255, 255, 255)), (4, 3), (255, 255, 255, 255))
}

pub struct FrameBuffer {
    pub data: Vec<u8>,
}

impl FrameBuffer {
    /// A buffer has a byte for every channel of every pixel.
    pub open spec fn wf(&self) -> bool {
        self.data@.len() == FRAME_BUFFER_SIZE
    }

    pub fn new() -> (buffer: FrameBuffer)
        ensures
            buffer.wf(),
            buffer.data@ == blank(FRAME_BUFFER_SIZE as nat),
    {
        let mut data: Vec<u8> = Vec::with_capacity(FRAME_BUFFER_SIZE);
        for i in 0..FRAME_BUFFER_SIZE
            invariant
                data@ == blank(i as nat),
        {
            data.push(0);
            assert(data@ =~= blank((i + 1) as nat));
        }
        FrameBuffer { data }
    }

    /// Set location (x, y) in buffer to specified color tuple (R, G, B, A).
    pub fn draw(&mut self, loc: (usize, usize), color: (u8, u8, u8, u8))
        requires
            offset(loc) + 3 < old(self).data@.len(),
        ensures
            final(self).data@ == painted(old(self).data@, loc, color),
    {
        let len = self.data.len();
        assert(offset(loc) + 3 < len && WIDTH == 10);
        let pos = (loc.0 + loc.1 * WIDTH) * 4;
        self.data[pos] = color.2;
        self.data[pos + 1] = color.1;
        self.data[pos + 2] = color.0;
        self.data[pos + 3] = color.3;
    }

    /// Sets every byte to zero.
    pub fn clear(&mut self)
        ensures
            final(self).data@ == blank(old(self).data@.len()),
    {
        let len = self.data.len();
        for i in 0..len
            invariant
                self.data@.len() == len,
                forall|j: int| 0 <= j < i ==> self.data@[j] == 0,
        {
            self.data[i] = 0;
        }
        assert(self.data@ =~= blank(len as nat));
    }
}

impl Default for FrameBuffer {
    /// A buffer without any storage.
    fn default() -> (buffer: FrameBuffer)
        ensures
            buffer.data@ == Seq::<u8>::empty(),
    {
        FrameBuffer { data: Vec::new() }
    }
}

pub struct Scene {
    pub frame_buffers: Vec<FrameBuffer>,
    pub current_buffer: usize,
}

impl Scene {
    /// A scene has `NUM_BUFFERS` whole buffers, and one of them is current.
    pub open spec fn wf(&self) -> bool {
        &&& self.frame_buffers@.len() == NUM_BUFFERS
        &&& forall|i: int| 0 <= i < NUM_BUFFERS ==> (#[trigger] self.frame_buffers@[i]).wf()
        &&& self.current_buffer < NUM_BUFFERS
    }

    pub fn new() -> (scene: Scene)
        ensures
            scene.wf(),
            scene.current_buffer == 0,
            forall|i: int|
                0 <= i < NUM_BUFFERS ==> (#[trigger] scene.frame_buffers@[i]).data@ == blank(
                    FRAME_BUFFER_SIZE as nat,
                ),
    {
        let mut buffers: Vec<FrameBuffer> = Vec::with_capacity(NUM_BUFFERS);
        buffers.push(FrameBuffer::new());
        buffers.push(FrameBuffer::new());
        Scene { frame_buffers: buffers, current_buffer: 0 }
    }

    /// Draws the next frame into the current buffer, and makes the other
    /// buffer current.
    pub fn draw(&mut self)
        requires
            old(self).wf(),
        ensures
            final(self).wf(),
            final(self).current_buffer == (old(self).current_buffer + 1) % 2,
            final(self).frame_buffers@[old(self).current_buffer as int].data@ == frame(
                FRAME_BUFFER_SIZE as nat,
            ),
            final(self).frame_buffers@[final(self).current_buffer as int] == old(
                self,
            ).frame_buffers@[final(self).current_buffer as int],
    {
        {
            let buffer = &mut self.frame_buffers[self.current_buffer];
            buffer.clear();
            buffer.draw((1, 1), (255, 255, 255, 255));
            buffer.draw((4, 3), (255, 255, 255, 255));
        }
        self.swap();
    }

    /// Makes the other buffer current.
    pub fn swap(&mut self)
        requires
            old(self).current_buffer < usize::MAX,
        ensures
            final(self).frame_buffers == old(self).frame_buffers,
            final(self).current_buffer == (old(self).current_buffer + 1) % 2,
    {
        self.current_buffer = (self.current_buffer + 1) % NUM_BUFFERS;
    }
}

impl Default for Scene {
    /// A scene without buffers: nothing can be drawn into it.
    fn default() -> (scene: Scene)
        ensures
            scene.frame_buffers@.len() == 0,
            scene.current_buffer == 0,
    {
        Scene { frame_buffers: Vec::new(), current_buffer: 0 }
    }
}

} // verus!
