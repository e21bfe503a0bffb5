# bevycube

A 3D scene (a rotating cube on a disk over a simulated ocean, with clickable
menu boards) built on Bevy, split in two:

- `src/` is the verified library: the ocean's double-buffered height grid
  (`ocean_grid`), the menu hitbox tables (`tables`) with hit testing and the
  selection diamonds (`menu`), the rendering settings and the caches that apply
  their changes (`settings`), the camera's menu history (`history`), click
  classification (`input`), menu visibility (`visibility`), wireframe indices
  (`wireframe`), mip level stitching (`mipmaps`), and the laws that tie them
  together (`laws`).
- `app/` is the Bevy program: scene setup, rendering, input, and the
  floating-point camera, wave and animation code, calling the library for its
  decisions. Its images are read from `assets/media`.
