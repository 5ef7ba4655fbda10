# mandala

A library for drawing mandalas: concentric drawings made of paths, laid out
in rings of radial segments and in fill patterns.

- `src/` is the verified core, written in Verus: SVG-style path commands and
  paths, path segments and continuous paths, fill values and the mirroring of
  generated drawings, the numbering and start angles of the segments of an
  epoch, the layers of an artboard, the naming of shader types and raster
  styles. Coordinates and angles are generic there, so the contracts speak of
  any number type.
- `app/` is the rest, in plain Rust: everything computed with floating point
  numbers (trigonometry, lengths, flattening, intersections, layouts), the
  parsing of shader structs with `syn`, and the types that carry `serde` and
  `derive_builder` derives. It instantiates the verified types with `f64`
  coordinates and `euclid` angles.
- `tests/` exercises the library through its public interface.
