# ngfx

Bindings for the NVIDIA Nsight Graphics SDK: GPU Trace and Graphics Capture
sessions driven from inside a Vulkan application.

- `src/` is the verified library: SDK result codes and `check`, the
  versioning of parameter structs, path encoding, activity codes, the
  sessions an injection yields, the decisions of the default Windows library
  loader (`loader`) and the install-path probe (`install`).
- `app/` makes the calls into the SDK's C function table (through the
  generated `ngfx_sys` bindings, which need the SDK headers to build), into
  Vulkan handles (`ash`) and into the Windows API, and exposes the original
  public API on top of the library.
- `tests/` exercises the library on concrete values.
