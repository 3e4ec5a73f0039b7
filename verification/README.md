# bevy_panini

A Panini projection for Bevy cameras: post-processing that compresses the edges of a
wide field of view onto a cylinder.

- `src/` is the verified library (Verus). It holds the camera projection's master switch
  for the post-processing, the shader settings and perspective that the projection carries,
  and the decision of what each frame does with the settings (put them on the camera, take
  them off, or leave the camera alone). Its laws are the `lemma_*` proof functions in
  `src/settings.rs`.
- `app/` is the Bevy side: the plugin, the `CameraProjection` impl, the floating-point
  field-of-view arithmetic, the shader uniform type, and the system that carries out the
  library's decision with bevy commands.
- `tests/` exercises the library.
