# glitter

A type-safe wrapper around OpenGL ES 2 whose rules are proved with Verus.

OpenGL is a state machine: which buffer, framebuffer, renderbuffer and
texture is bound to each target decides what a call does. `glitter` encodes
that state in the type of the context (`ContextOf<B, F, P, R, T>`), so a
target cannot be bound twice at once, and describes every OpenGL call it
makes as a `GlCommand` value whose arguments the library computes.

## Layout

- `src/` is the verified library. Each operation returns the commands it
  needs; builders (textures, framebuffers, renderbuffers), the vertex
  attribute binder, the image and index/uniform data layouts and the shader
  compile decisions carry contracts that Verus checks.
- `app/` runs those commands with the `gl` crate, makes the OpenGL queries
  (`glGen*`, `glGetError`, `glCheckFramebufferStatus`, shader status and
  logs) whose answers the library's decisions take, and holds what needs
  floating point or other crates' traits: clear colors, float vertex
  attributes, the `impl_vertex_data!` and `attrib_pointers!` macros and the
  conversions from the `image` crate.
- `tests/` exercises the library on concrete values.

## Differences in design

- GL objects are not deleted when they are dropped: Verus does not verify
  `Drop` impls, so each object type offers a `delete()` that returns the
  `glDelete*` command, and the caller runs it. An object that is dropped
  without it is leaked by the GL.
- `AttribBinder` keeps its names and locations in a `Vec` whose invariant
  is that no name occurs twice, where a `HashMap` would hold them. vstd's
  `HashMap` contracts hold only for key types that it proves follow its key
  model (the integers, `bool` and boxes of them), and the attribute names
  are `String`s, so a `HashMap` would leave the binder's contents unknown to
  its proofs.
