use vstd::prelude::*;

use crate::shader_list::ShaderList;

verus! {

/// The keys that the viewer tells apart.
#[derive(Debug, Clone, Copy, PartialEq, Eq, Structural)]
pub enum Key {
    Left,
    Right,
    Escape,
    Other,
}

/// What the window reports to the viewer.
#[derive(Debug, Clone, Copy, PartialEq, Eq, Structural)]
pub enum WindowInput {
    /// A key went down (`pressed`) or up.
    Keyboard { key: Key, pressed: bool },
    /// The drawable area now has this physical size.
    Resized { width: u32, height: u32 },
    CloseRequested,
    Other,
}

/// Why the next surface image could not be acquired.
#[derive(Debug, Clone, Copy, PartialEq, Eq, Structural)]
pub enum SurfaceFault {
    Lost,
    OutOfMemory,
    Outdated,
    Timeout,
}

/// What the window side has to do after an input or a failed frame.
#[derive(Debug, PartialEq, Eq)]
pub enum Action {
    /// Nothing to do.
    Ignore,
    /// Set the window title and build a pipeline from this fragment source.
    Rebuild { title: &'static str, source: String },
    /// Configure the surface at this size.
    Reconfigure { width: u32, height: u32 },
    /// Leave the event loop.
    Exit,
}

/// The viewer's decisions: which shader is active, what the window title is,
/// and the size that the surface and the uniform block are kept at.
#[derive(Debug, Clone, Copy)]
pub struct State {
    shader_list: ShaderList,
    title: &'static str,
    width: u32,
    height: u32,
    resolution: (u32, u32),
}

impl State {
    pub closed spec fn shaders(self) -> ShaderList {
        self.shader_list
    }

    /// The window title.
    pub closed spec fn title_text(self) -> Seq<char> {
        self.title@
    }

    /// The size the surface is configured at.
    pub closed spec fn size(self) -> (u32, u32) {
        (self.width, self.height)
    }

    /// The resolution held in the uniform block.
    pub closed spec fn uniform_resolution(self) -> (u32, u32) {
        self.resolution
    }

    /// The title names the shader on display, and the uniform block holds the
    /// size that the surface is configured at.
    pub closed spec fn wf(self) -> bool {
        &&& self.shader_list.wf()
        &&& self.title@ == self.shader_list.current_view().0
        &&& self.resolution == (self.width, self.height)
    }

    /// The uniform block never lags behind the surface: in every state the
    /// resolution written before a draw is the size last taken by a resize, or
    /// the initial size when none was.
    pub proof fn lemma_resolution_current(self)
        requires
            self.wf(),
        ensures
            self.uniform_resolution() == self.size(),
    {
    }

    /// No viewer exists over an empty catalog: every well-formed state, and so
    /// every state that GPU work is set up for, holds at least one shader.
    pub proof fn lemma_catalog_not_empty(self)
        requires
            self.wf(),
        ensures
            self.shaders().wf(),
            self.shaders().len() > 0,
    {
    }

    /// A viewer started on a fresh catalog shows the first entry's name as its
    /// title; one step to the right later it shows the second entry's name (the
    /// first again when the catalog holds one entry).
    pub proof fn lemma_title_follows_navigation(list: ShaderList, start: State, after: State)
        requires
            list.wf(),
            list.index() == 0,
            start.wf(),
            start.shaders() == list,
            after.wf(),
            after.shaders().same_catalog(list),
            after.shaders().index() == list.next_index(),
        ensures
            start.title_text() == list.name_at(0),
            after.title_text() == list.name_at((1nat % list.len()) as int),
    {
        let i = after.shaders().index() as int;
        assert(after.shaders().name_at(i) == list.name_at(i));
    }

    /// Starts on the list's current shader, at the window's initial size.
    pub fn new(shader_list: ShaderList, width: u32, height: u32) -> (r: Self)
        requires
            shader_list.wf(),
        ensures
            r.wf(),
            r.shaders().wf(),
            r.shaders() == shader_list,
            r.title_text() == shader_list.current_view().0,
            r.size() == (width, height),
            r.uniform_resolution() == (width, height),
    {
        let (title, _) = shader_list.current_shader();
        State { shader_list, title, width, height, resolution: (width, height) }
    }

    /// The shader on display: its name and full source, from which the first
    /// pipeline is built.
    pub fn current_shader(&self) -> (r: (&'static str, String))
        requires
            self.wf(),
        ensures
            (r.0@, r.1@) == self.shaders().current_view(),
            r.0@ == self.title_text(),
    {
        self.shader_list.current_shader()
    }

    /// The window title.
    pub fn title(&self) -> (r: &'static str)
        ensures
            r@ == self.title_text(),
    {
        self.title
    }

    /// The size the surface is configured at.
    pub fn surface_size(&self) -> (r: (u32, u32))
        ensures
            r == self.size(),
    {
        (self.width, self.height)
    }

    /// The resolution to write into the uniform block before a draw.
    pub fn resolution(&self) -> (r: (u32, u32))
        requires
            self.wf(),
        ensures
            r == self.uniform_resolution(),
            r == self.size(),
    {
        self.resolution
    }

    /// Navigation keys: Left steps back through the catalog and Right steps
    /// forward, on a key press only. Returns the new shader, whose pipeline must
    /// replace the current one, or `None` when the key is not for the viewer.
    pub fn input(&mut self, key: Key, pressed: bool) -> (r: Option<(&'static str, String)>)
        requires
            old(self).wf(),
        ensures
            final(self).wf(),
            final(self).shaders().wf(),
            final(self).size() == old(self).size(),
            final(self).uniform_resolution() == old(self).uniform_resolution(),
            final(self).shaders().same_catalog(old(self).shaders()),
            r is Some <==> pressed && (key == Key::Left || key == Key::Right),
            pressed && key == Key::Left ==> final(self).shaders().index()
                == old(self).shaders().previous_index(),
            pressed && key == Key::Right ==> final(self).shaders().index()
                == old(self).shaders().next_index(),
            r is None ==> *final(self) == *old(self),
            r matches Some(s) ==> (s.0@, s.1@) == final(self).shaders().current_view()
                && final(self).title_text() == s.0@,
    {
        if pressed && key == Key::Left {
            let shader = self.shader_list.previous_shader();
            self.title = shader.0;
            Some(shader)
        } else if pressed && key == Key::Right {
            let shader = self.shader_list.next_shader();
            self.title = shader.0;
            Some(shader)
        } else {
            None
        }
    }

    /// A new drawable size. A size with a zero side is ignored; any other is
    /// taken by the surface and the uniform block together. Returns whether it
    /// was taken, in which case the surface must be configured again.
    pub fn resize(&mut self, width: u32, height: u32) -> (r: bool)
        requires
            old(self).wf(),
        ensures
            final(self).wf(),
            final(self).shaders().wf(),
            r == (width > 0 && height > 0),
            r ==> final(self).size() == (width, height),
            r ==> final(self).uniform_resolution() == (width, height),
            !r ==> *final(self) == *old(self),
            final(self).shaders() == old(self).shaders(),
            final(self).title_text() == old(self).title_text(),
    {
        if width > 0 && height > 0 {
            self.width = width;
            self.height = height;
            self.resolution = (width, height);
            true
        } else {
            false
        }
    }

    /// Decides what an event from the window asks for. Navigation keys rebuild
    /// the pipeline; Escape and a close request end the loop; a resize with
    /// both sides positive reconfigures the surface.
    pub fn handle(&mut self, event: WindowInput) -> (r: Action)
        requires
            old(self).wf(),
        ensures
            final(self).wf(),
            final(self).shaders().wf(),
            final(self).shaders().same_catalog(old(self).shaders()),
            match event {
                WindowInput::Keyboard { key, pressed } => {
                    &&& pressed && key == Key::Left ==> final(self).shaders().index()
                        == old(self).shaders().previous_index()
                    &&& pressed && key == Key::Right ==> final(self).shaders().index()
                        == old(self).shaders().next_index()
                    &&& if pressed && (key == Key::Left || key == Key::Right) {
                        &&& r matches Action::Rebuild { title, source }
                        &&& (title@, source@) == final(self).shaders().current_view()
                        &&& final(self).title_text() == title@
                        &&& final(self).size() == old(self).size()
                    } else if pressed && key == Key::Escape {
                        r == Action::Exit && *final(self) == *old(self)
                    } else {
                        r == Action::Ignore && *final(self) == *old(self)
                    }
                },
                WindowInput::Resized { width, height } => {
                    &&& final(self).shaders() == old(self).shaders()
                    &&& final(self).title_text() == old(self).title_text()
                    &&& if width > 0 && height > 0 {
                        &&& r == (Action::Reconfigure { width, height })
                        &&& final(self).size() == (width, height)
                        &&& final(self).uniform_resolution() == (width, height)
                    } else {
                        r == Action::Ignore && *final(self) == *old(self)
                    }
                },
                WindowInput::CloseRequested => r == Action::Exit && *final(self) == *old(self),
                WindowInput::Other => r == Action::Ignore && *final(self) == *old(self),
            },
    {
        match event {
            WindowInput::Keyboard { key, pressed } => {
                match self.input(key, pressed) {
                    Some((title, source)) => Action::Rebuild { title, source },
                    None => {
                        if pressed && key == Key::Escape {
                            Action::Exit
                        } else {
                            Action::Ignore
                        }
                    },
                }
            },
            WindowInput::Resized { width, height } => {
                if self.resize(width, height) {
                    Action::Reconfigure { width, height }
                } else {
                    Action::Ignore
                }
            },
            WindowInput::CloseRequested => Action::Exit,
            WindowInput::Other => Action::Ignore,
        }
    }

    /// Decides what a failed image acquisition asks for: a lost surface is
    /// configured again at the last size taken, running out of memory ends the
    /// loop, and the other faults skip the frame.
    pub fn surface_fault(&self, fault: SurfaceFault) -> (r: Action)
        ensures
            match fault {
                SurfaceFault::Lost => r == (Action::Reconfigure {
                    width: self.size().0,
                    height: self.size().1,
                }),
                SurfaceFault::OutOfMemory => r == Action::Exit,
                _ => r == Action::Ignore,
            },
    {
        match fault {
            SurfaceFault::Lost => Action::Reconfigure { width: self.width, height: self.height },
            SurfaceFault::OutOfMemory => Action::Exit,
            _ => Action::Ignore,
        }
    }
}

} // verus!
