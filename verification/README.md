# rustrt

A small physically based ray tracer. The library (`src/`) holds the logic
that does not depend on floating-point arithmetic, each function with a
contract proved by Verus:

- `array2d`: the row-major two-dimensional array that images are stored in;
- `split` and `bvh`: the in-place partition used to split a bounding volume
  hierarchy node, and the recursive shape of the hierarchy;
- `samplers`, `integrators`: sampler bookkeeping and the choice of sampler
  and integrator from a scene description;
- `scene_desc`, `surface_tree`, `mesh`, `text`: what the entries of a scene
  description stand for, the flattening of nested surface groups, and the
  grouping of mesh indices into triangles;
- `registry`: the table of named materials, where registering a name again
  replaces its value;
- `utils`: linear interpolation.

The program (`app/`) reads scene files, does all the floating-point work
(geometry, materials, textures, integration) and writes the image.
