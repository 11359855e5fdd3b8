# starry

The system-call logic of a small Unix-like kernel, written in Verus.

- `src/` is the verified library: flag sets (`flags`), the shared data types
  and the per-task time accounting (`ctypes`), the errors (`errno`), and, under
  `syscall_imp`, the decisions that each system call makes on its arguments and
  on what the kernel answers it.
- `app/` is the kernel side: it reads and writes user memory and asks the task,
  time, file and network services, and hands every decision to the library.
- `tests/` runs the library on concrete values.
