# tauri-runtime-cef (verified core)

The Linux side of an off-screen browser runtime: window input is translated
into browser host calls, painted frames are kept and shown, DMA-BUF paints are
checked before they are imported into the GPU, and native window settings
become X11 requests.

- `src/` is the library, proved with Verus: key codes and modifier flags
  (`keyboard`), host calls for window events (`input`), cursor shapes
  (`cursor`), the off-screen view state and pixel conversion (`osr`), DMA-BUF
  checks and memory type selection (`dmabuf`), surface reconfiguration
  (`surface`), window and view decisions (`window`, `webview`), and the context
  menu JSON and script (`context_menu`, `text`).
- `app/` carries the decisions out through CEF, winit, wgpu, Vulkan (ash),
  softbuffer and Xlib, and keeps the floating-point scaling.
- `tests/` runs the library on concrete values.
