# blend

Per-output blend space for mixed SDR/HDR compositing, with its decisions verified by Verus.

- `src/description.rs`: surface image descriptions.
- `src/content.rs`: how a buffer's content is classified, from its description and pixel format.
- `src/frame.rs`: the blend state of a frame, and the shader uniforms of its draws.
- `src/renderer.rs`: what a renderer is told when the blend changes, for HDR, SDR and capture frames.
- `src/element.rs`: surface render elements, and the texture program override around their draws.
- `src/log.rs`: logging each distinct classification once.
- `app/`: the same on smithay's GLES renderer. Floating-point work (the value of a scale, and
  `srgb_to_pq`) is there.

Luminances are a type parameter of the library. It carries them and never computes with them, so a
caller may use `f64`. A `Scale` names the division that the caller carries out.
