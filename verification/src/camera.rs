use vstd::prelude::*;
use crate::binding::{entries_match, uniform_group_entries, uniform_layout_entries, BindGroup, Uniform};
use crate::buffer::{is_memory_image, Buffer, BufferUsage};

verus! {

/// Number of bytes in the camera's uniform block: a 4 by 4 matrix of
/// single-precision numbers.
pub const CAMERA_UNIFORM_SIZE: usize = 64;

/// Bit pattern of the single-precision number 1.
pub const ONE: u32 = 0x3F80_0000;

/// The camera as the shaders read it: the view-projection matrix, column
/// after column, every entry the bit pattern of a single-precision number.
#[derive(Clone, Copy, Debug)]
pub struct CameraUniform {
    pub view_proj: [u32; 16],
}

/// The identity matrix, column after column.
pub open spec fn identity_matrix() -> Seq<u32> {
    Seq::new(
        16,
        |k: int|
            if k % 5 == 0 {
                ONE
            } else {
                0u32
            },
    )
}

impl CameraUniform {
    /// The block as the device reads it, word after word.
    pub open spec fn words(&self) -> Seq<u32> {
        self.view_proj@
    }

    /// A block that holds the identity matrix.
    pub fn new() -> (camera: Self)
        ensures
            camera.words() == identity_matrix(),
    {
        let camera = CameraUniform {
            view_proj: [ONE, 0, 0, 0, 0, ONE, 0, 0, 0, 0, ONE, 0, 0, 0, 0, ONE],
        };
        assert(camera.words() =~= identity_matrix());
        camera
    }

    /// Takes over the view-projection matrix computed for the camera's pose.
    pub fn update_view_proj(&mut self, view_proj: [u32; 16])
        ensures
            final(self).words() == view_proj@,
    {
        self.view_proj = view_proj;
    }

    /// The block as words, in the order in which the device reads them.
    pub fn to_words(&self) -> (words: Vec<u32>)
        ensures
            words@ == self.words(),
    {
        let mut words: Vec<u32> = Vec::new();
        let mut k: usize = 0;
        while k < 16
            invariant
                k <= 16,
                words@.len() == k,
                forall|j: int| 0 <= j < k ==> #[trigger] words@[j] == self.view_proj@[j],
            decreases 16 - k,
        {
            words.push(self.view_proj[k]);
            k += 1;
        }
        assert(words@ =~= self.words());
        words
    }

    /// The bytes that the camera's buffer holds for this block.
    pub fn to_bytes(&self) -> (bytes: Vec<u8>)
        ensures
            is_memory_image(bytes@, self.words()),
            bytes@.len() == CAMERA_UNIFORM_SIZE,
    {
        let words = self.to_words();
        Buffer::from_words(&words, BufferUsage::UniformCopyDst).contents
    }
}

/// A direction in which the camera is moved.
#[derive(Clone, Copy, Debug, PartialEq, Eq, Structural)]
pub enum Direction {
    Forward,
    Backward,
    Left,
    Right,
}

/// What the window reports of the user, as far as the camera is concerned.
#[derive(Clone, Copy, Debug, PartialEq, Eq, Structural)]
pub enum InputSignal {
    /// The key of a direction went down.
    Pressed(Direction),
    /// The key of a direction came up.
    Released(Direction),
    /// The pointer moved.
    PointerMoved,
    /// Anything else.
    Other,
}

/// Bit pattern of the single-precision number 0.2: how far the camera moves
/// in one frame, and how much it makes of the pointer's motion.
pub const SENSITIVITY: u32 = 0x3E4C_CCCD;

/// Keeps which directions are held down. The sensitivity is the bit pattern
/// of a single-precision number and never changes.
#[derive(Clone, Copy, Debug, PartialEq, Eq, Structural)]
pub struct CameraController {
    pub speed: u32,
    pub is_forward_pressed: bool,
    pub is_backward_pressed: bool,
    pub is_left_pressed: bool,
    pub is_right_pressed: bool,
}

impl CameraController {
    /// The controller with one direction set to held down or not.
    pub open spec fn with(self, direction: Direction, pressed: bool) -> CameraController {
        match direction {
            Direction::Forward => CameraController { is_forward_pressed: pressed, ..self },
            Direction::Backward => CameraController { is_backward_pressed: pressed, ..self },
            Direction::Left => CameraController { is_left_pressed: pressed, ..self },
            Direction::Right => CameraController { is_right_pressed: pressed, ..self },
        }
    }

    /// The controller after a signal: a key going down or coming up sets its
    /// direction, all else leaves the controller as it is.
    pub open spec fn after(self, signal: InputSignal) -> CameraController {
        match signal {
            InputSignal::Pressed(direction) => self.with(direction, true),
            InputSignal::Released(direction) => self.with(direction, false),
            _ => self,
        }
    }

    /// Whether a signal is one for the camera: keys of directions and the
    /// pointer's motion are.
    pub open spec fn handles(signal: InputSignal) -> bool {
        !(signal is Other)
    }

    /// A controller of the given sensitivity with no direction held down.
    pub open spec fn at_rest(speed: u32) -> CameraController {
        CameraController {
            speed,
            is_forward_pressed: false,
            is_backward_pressed: false,
            is_left_pressed: false,
            is_right_pressed: false,
        }
    }

    pub fn new(speed: u32) -> (controller: Self)
        ensures
            controller == Self::at_rest(speed),
    {
        CameraController {
            speed,
            is_forward_pressed: false,
            is_backward_pressed: false,
            is_left_pressed: false,
            is_right_pressed: false,
        }
    }

    /// Takes note of a signal, and says whether it was one for the camera.
    pub fn process_events(&mut self, signal: InputSignal) -> (handled: bool)
        ensures
            *final(self) == old(self).after(signal),
            handled == Self::handles(signal),
    {
        match signal {
            InputSignal::Pressed(direction) => {
                self.set(direction, true);
                true
            },
            InputSignal::Released(direction) => {
                self.set(direction, false);
                true
            },
            InputSignal::PointerMoved => true,
            InputSignal::Other => false,
        }
    }

    fn set(&mut self, direction: Direction, pressed: bool)
        ensures
            *final(self) == old(self).with(direction, pressed),
    {
        match direction {
            Direction::Forward => {
                self.is_forward_pressed = pressed;
            },
            Direction::Backward => {
                self.is_backward_pressed = pressed;
            },
            Direction::Left => {
                self.is_left_pressed = pressed;
            },
            Direction::Right => {
                self.is_right_pressed = pressed;
            },
        }
    }
}

/// All that the renderer keeps of the camera: the controller, the uniform
/// block, the buffer that holds the block on the device and the binding set
/// that shows the buffer.
#[derive(Debug)]
pub struct Context {
    pub controller: CameraController,
    pub uniform: CameraUniform,
    pub buffer: Buffer,
    pub bind_group: BindGroup,
}

impl Context {
    /// Whether the buffer is a uniform buffer of the block's size and the
    /// binding set shows the camera's buffer in slot 0.
    pub open spec fn well_formed(&self) -> bool {
        &&& self.buffer.usage == BufferUsage::UniformCopyDst
        &&& self.buffer.contents@.len() == CAMERA_UNIFORM_SIZE
        &&& self.bind_group.entries@ == uniform_group_entries(Uniform::Camera)
        &&& entries_match(self.bind_group.entries@, uniform_layout_entries())
    }

    /// The camera's parts for a camera with the matrix `view_proj`: a
    /// controller at rest, the block, a buffer that holds it and the binding
    /// set of the buffer.
    pub fn initial(view_proj: [u32; 16]) -> (ctx: Self)
        ensures
            ctx.well_formed(),
            ctx.controller == CameraController::at_rest(SENSITIVITY),
            ctx.uniform.words() == view_proj@,
            is_memory_image(ctx.buffer.contents@, view_proj@),
    {
        let mut uniform = CameraUniform::new();
        uniform.update_view_proj(view_proj);
        let words = uniform.to_words();
        let buffer = Buffer::from_words(&words, BufferUsage::UniformCopyDst);
        Context::new(
            CameraController::new(SENSITIVITY),
            uniform,
            buffer,
            BindGroup::uniform(Uniform::Camera),
        )
    }

    pub fn new(
        controller: CameraController,
        uniform: CameraUniform,
        buffer: Buffer,
        bind_group: BindGroup,
    ) -> (ctx: Self)
        ensures
            ctx.controller == controller,
            ctx.uniform == uniform,
            ctx.buffer == buffer,
            ctx.bind_group == bind_group,
    {
        Context { controller, uniform, buffer, bind_group }
    }
}

} // verus!
